//! The stream router: picks the target stream name for an event from the
//! configured strategy and default stream name.

use vstd::prelude::*;
use vstd::string::StringExecFns;

use crate::model::{Event, StreamStrategy};

verus! {

/// Under `ByEventType` the stream name is the lowercased variant tag;
/// under any other strategy it is the configured default, unchanged.
pub open spec fn route_spec(e: Event, strategy: StreamStrategy, default_stream: Seq<char>) -> Seq<
    char,
> {
    if strategy == StreamStrategy::ByEventType {
        e.data.tag()
    } else {
        default_stream
    }
}

/// Picks the target stream name. Pure and total: no failure mode.
pub fn route(event: &Event, strategy: StreamStrategy, default_stream: &str) -> (r: String)
    ensures
        r@ == route_spec(*event, strategy, default_stream@),
{
    match strategy {
        StreamStrategy::ByEventType => String::from_str(event.data.tag_str()),
        StreamStrategy::SingleStream => String::from_str(default_stream),
    }
}

/// Under `ByEventType` the stream name depends on the variant tag alone,
/// never on the configured default; under any other strategy it is the
/// configured default, whatever the variant.
pub proof fn lemma_route_strategies(e: Event, d1: Seq<char>, d2: Seq<char>)
    ensures
        route_spec(e, StreamStrategy::ByEventType, d1) == e.data.tag(),
        route_spec(e, StreamStrategy::ByEventType, d1) == route_spec(
            e,
            StreamStrategy::ByEventType,
            d2,
        ),
        route_spec(e, StreamStrategy::SingleStream, d1) == d1,
{
}

/// Routing is pure: value-equal events always route to the same stream.
pub proof fn lemma_route_deterministic(
    e1: Event,
    e2: Event,
    strategy: StreamStrategy,
    default_stream: Seq<char>,
)
    requires
        e1 == e2,
    ensures
        route_spec(e1, strategy, default_stream) == route_spec(e2, strategy, default_stream),
{
}

} // verus!
