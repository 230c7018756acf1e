//! The producer loop's sequencing logic: one append per event, in arrival
//! order, aborting on the first failed append.
//!
//! The network side (receiving events from the upstream channel and issuing
//! the append commands to the sink backend) lives outside this library; here
//! the loop is verified over the sequence of events received and the
//! per-append outcomes the sink reported.

use vstd::prelude::*;

use crate::model::{Event, SinkError, StreamStrategy};
use crate::record::RedisRecord;
use crate::route::{route, route_spec};

verus! {

/// One append command for the sink: the target stream and the record, whose
/// single field pairs the derived key with the serialized event. The record
/// identifier is assigned by the sink, not the producer.
pub struct AppendRequest {
    pub stream: String,
    pub record: RedisRecord,
}

/// Whether every append outcome reported success.
pub open spec fn all_ok(outs: Seq<Result<(), SinkError>>) -> bool {
    forall|i: int| 0 <= i < outs.len() ==> outs[i] is Ok
}

/// The index of the first failed outcome (the length when none failed).
pub open spec fn first_err(outs: Seq<Result<(), SinkError>>) -> int
    decreases outs.len(),
{
    if outs.len() == 0 {
        0
    } else if outs[0] is Err {
        0
    } else {
        1 + first_err(outs.drop_first())
    }
}

proof fn lemma_first_err_of(outs: Seq<Result<(), SinkError>>, j: int)
    requires
        0 <= j < outs.len(),
        outs[j] is Err,
        forall|i: int| 0 <= i < j ==> outs[i] is Ok,
    ensures
        first_err(outs) == j,
    decreases outs.len(),
{
    if j > 0 {
        assert(outs[0] is Ok);
        assert forall|i: int| 0 <= i < j - 1 implies outs.drop_first()[i] is Ok by {
            assert(outs.drop_first()[i] == outs[i + 1]);
        }
        assert(outs.drop_first()[j - 1] == outs[j]);
        lemma_first_err_of(outs.drop_first(), j - 1);
    }
}

/// Builds the one append command for an event: target stream per the
/// routing strategy, record keyed by the derivation policy.
pub fn plan_record(event: Event, strategy: StreamStrategy, default_stream: &str) -> (r:
    AppendRequest)
    ensures
        r.record.event == event,
        r.record.wf(),
        r.stream@ == route_spec(event, strategy, default_stream@),
{
    let stream = route(&event, strategy, default_stream);
    let record = RedisRecord::new(event);
    AppendRequest { stream, record }
}

/// The loop's sequencing, verified over the events received and the outcome
/// the sink reported for each issued append (`outcomes[i]` answers the
/// `i`-th append). Appends are issued one per event, in arrival order, each
/// routed and keyed for its own event; the loop returns success exactly when
/// the upstream is exhausted with no failure, and aborts on the first failed
/// append, leaving the remaining events untouched.
pub fn producer_loop(
    events: Vec<Event>,
    outcomes: Vec<Result<(), SinkError>>,
    strategy: StreamStrategy,
    default_stream: &str,
) -> (r: (Vec<AppendRequest>, Result<(), SinkError>))
    requires
        events@.len() == outcomes@.len(),
    ensures
        r.0@.len() <= events@.len(),
        forall|i: int|
            0 <= i < r.0@.len() ==> (#[trigger] r.0@[i]).record.event == events@[i],
        forall|i: int| 0 <= i < r.0@.len() ==> (#[trigger] r.0@[i]).record.wf(),
        forall|i: int|
            0 <= i < r.0@.len() ==> (#[trigger] r.0@[i]).stream@ == route_spec(
                events@[i],
                strategy,
                default_stream@,
            ),
        all_ok(outcomes@) ==> r.0@.len() == events@.len() && r.1 is Ok,
        !all_ok(outcomes@) ==> r.0@.len() == first_err(outcomes@) + 1 && r.1 == outcomes@[
            first_err(outcomes@)
        ],
{
    let ghost evs0: Seq<Event> = events@;
    let ghost outs0: Seq<Result<(), SinkError>> = outcomes@;
    let mut remaining = events;
    let mut pending = outcomes;
    let mut requests: Vec<AppendRequest> = Vec::new();
    let mut failure: Option<SinkError> = None;
    while remaining.len() > 0 && failure.is_none()
        invariant
            outs0.len() == evs0.len(),
            requests@.len() + remaining@.len() == evs0.len(),
            remaining@ == evs0.subrange(requests@.len() as int, evs0.len() as int),
            pending@ == outs0.subrange(requests@.len() as int, outs0.len() as int),
            forall|i: int|
                0 <= i < requests@.len() ==> (#[trigger] requests@[i]).record.event == evs0[i],
            forall|i: int| 0 <= i < requests@.len() ==> (#[trigger] requests@[i]).record.wf(),
            forall|i: int|
                0 <= i < requests@.len() ==> (#[trigger] requests@[i]).stream@ == route_spec(
                    evs0[i],
                    strategy,
                    default_stream@,
                ),
            failure is None ==> forall|i: int| 0 <= i < requests@.len() ==> outs0[i] is Ok,
            failure matches Some(err) ==> requests@.len() >= 1 && outs0[requests@.len() - 1]
                == Result::<(), SinkError>::Err(err) && (forall|i: int|
                0 <= i < requests@.len() - 1 ==> outs0[i] is Ok),
        decreases remaining@.len(),
    {
        let ghost k0 = requests@.len() as int;
        let event = remaining.remove(0);
        let outcome = pending.remove(0);
        proof {
            assert(remaining@ =~= evs0.subrange(k0 + 1, evs0.len() as int));
            assert(pending@ =~= outs0.subrange(k0 + 1, outs0.len() as int));
            assert(event == evs0[k0]);
            assert(outcome == outs0[k0]);
        }
        let request = plan_record(event, strategy, default_stream);
        requests.push(request);
        if let Err(e) = outcome {
            failure = Some(e);
        }
    }
    match failure {
        None => {
            proof {
                assert(requests@.len() == evs0.len());
                assert(all_ok(outs0));
            }
            (requests, Ok(()))
        },
        Some(e) => {
            proof {
                let k = requests@.len() as int;
                assert(outs0[k - 1] is Err);
                assert(!all_ok(outs0));
                lemma_first_err_of(outs0, k - 1);
            }
            (requests, Err(e))
        },
    }
}

} // verus!
