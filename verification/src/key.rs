//! The record-key derivation policy: a total function from tagged event
//! variants to a stable identifying string.

use vstd::prelude::*;
use vstd::string::StringExecFns;

use crate::decimal::{dec_seq, u64_to_string};
use crate::model::{Event, EventData};

verus! {

/// The variant-specific key rule: one case per variant, `None` where the
/// variant yields no key (absent context fields propagate to `None`, except
/// where a rule says otherwise).
pub open spec fn make_key_spec(e: Event) -> Option<Seq<char>> {
    match e.data {
        EventData::Block(_) => match e.context.block_number {
            Some(n) => Some(dec_seq(n as nat)),
            None => None,
        },
        EventData::BlockEnd(_) => None,
        EventData::Transaction(_) => match e.context.tx_hash {
            Some(h) => Some(h@),
            None => None,
        },
        EventData::TransactionEnd(_) => None,
        EventData::TxInput(rec) => Some(rec.tx_id@ + "#"@ + dec_seq(rec.index as nat)),
        EventData::TxOutput(_) => match e.context.tx_hash {
            Some(h) => Some(
                match e.context.output_idx {
                    Some(i) => h@ + "#"@ + dec_seq(i as nat),
                    None => h@,
                },
            ),
            None => None,
        },
        EventData::OutputAsset(rec) => Some(rec.policy@ + "."@ + rec.asset@),
        EventData::Metadata(_) => match e.context.tx_hash {
            Some(h) => Some(h@),
            None => None,
        },
        EventData::CIP25Asset(_) => match e.context.tx_hash {
            Some(h) => Some(h@),
            None => None,
        },
        EventData::Mint(_) => match e.context.tx_hash {
            Some(h) => Some(h@),
            None => None,
        },
        EventData::Collateral { tx_id, index } => Some(tx_id@ + "#"@ + dec_seq(index as nat)),
        EventData::NativeScript { .. } => match e.context.tx_hash {
            Some(h) => Some(h@),
            None => None,
        },
        EventData::PlutusScript { .. } => match e.context.tx_hash {
            Some(h) => Some(h@),
            None => None,
        },
        EventData::StakeRegistration { .. } => match e.context.tx_hash {
            Some(h) => Some(h@),
            None => None,
        },
        EventData::StakeDeregistration { .. } => match e.context.tx_hash {
            Some(h) => Some(h@),
            None => None,
        },
        EventData::StakeDelegation { credential: _, pool_hash } => match e.context.tx_hash {
            Some(h) => Some(h@ + "|"@ + pool_hash@),
            None => None,
        },
        EventData::PoolRegistration { .. } => match e.context.tx_hash {
            Some(h) => Some(h@),
            None => None,
        },
        EventData::PoolRetirement { pool, epoch: _ } => Some(pool@),
        EventData::GenesisKeyDelegation => match e.context.tx_hash {
            Some(h) => Some(h@),
            None => None,
        },
        EventData::MoveInstantaneousRewardsCert { .. } => match e.context.tx_hash {
            Some(h) => Some(h@),
            None => None,
        },
        EventData::RollBack { .. } => match e.context.block_number {
            Some(n) => Some(dec_seq(n as nat)),
            None => None,
        },
        _ => Some(e.data.tag()),
    }
}

/// The caller-visible key: a present fingerprint always wins; otherwise the
/// variant rule applies, defaulting to the empty string when it yields none.
pub open spec fn key_spec(e: Event) -> Seq<char> {
    match e.fingerprint {
        Some(f) => f@,
        None => match make_key_spec(e) {
            Some(k) => k,
            None => Seq::<char>::empty(),
        },
    }
}

/// Applies the variant-specific key rule.
pub fn make_key(event: &Event) -> (r: Option<String>)
    ensures
        r.deep_view() == make_key_spec(*event),
{
    match &event.data {
        EventData::Block(_) => match event.context.block_number {
            Some(n) => Some(u64_to_string(n)),
            None => None,
        },
        EventData::BlockEnd(_) => None,
        EventData::TxInput(rec) => {
            let mut s = rec.tx_id.clone();
            s.append("#");
            s.append(u64_to_string(rec.index).as_str());
            Some(s)
        },
        EventData::TxOutput(_) => match &event.context.tx_hash {
            Some(hash) => {
                let mut s = hash.clone();
                if let Some(idx) = event.context.output_idx {
                    s.append("#");
                    s.append(u64_to_string(idx).as_str());
                }
                Some(s)
            },
            None => None,
        },
        EventData::OutputAsset(rec) => {
            let mut s = rec.policy.clone();
            s.append(".");
            s.append(rec.asset.as_str());
            Some(s)
        },
        EventData::Collateral { tx_id, index } => {
            let mut s = tx_id.clone();
            s.append("#");
            s.append(u64_to_string(*index).as_str());
            Some(s)
        },
        EventData::StakeDelegation { credential: _, pool_hash } => match &event.context.tx_hash {
            Some(hash) => {
                let mut s = hash.clone();
                s.append("|");
                s.append(pool_hash.as_str());
                Some(s)
            },
            None => None,
        },
        EventData::PoolRetirement { pool, epoch: _ } => Some(pool.clone()),
        EventData::TransactionEnd(_) => None,
        EventData::Transaction(_)
        | EventData::Metadata(_)
        | EventData::CIP25Asset(_)
        | EventData::Mint(_)
        | EventData::NativeScript { .. }
        | EventData::PlutusScript { .. }
        | EventData::StakeRegistration { .. }
        | EventData::StakeDeregistration { .. }
        | EventData::PoolRegistration { .. }
        | EventData::GenesisKeyDelegation
        | EventData::MoveInstantaneousRewardsCert { .. } => match &event.context.tx_hash {
            Some(hash) => Some(hash.clone()),
            None => None,
        },
        EventData::RollBack { .. } => match event.context.block_number {
            Some(n) => Some(u64_to_string(n)),
            None => None,
        },
        EventData::CIP15Asset(_)
        | EventData::VKeyWitness { .. }
        | EventData::NativeWitness { .. }
        | EventData::PlutusWitness { .. }
        | EventData::PlutusRedeemer { .. }
        | EventData::PlutusDatum { .. } => Some(String::from_str(event.data.tag_str())),
    }
}

/// Derives the record key: the fingerprint when present, else the variant
/// rule's result, else the empty string.
pub fn key(event: &Event) -> (r: String)
    ensures
        r@ == key_spec(*event),
{
    match &event.fingerprint {
        Some(f) => f.clone(),
        None => match make_key(event) {
            Some(k) => k,
            None => String::new(),
        },
    }
}

/// A present fingerprint always overrides the variant-specific rules,
/// whatever the variant and context hold.
pub proof fn lemma_fingerprint_override(e: Event)
    requires
        e.fingerprint is Some,
    ensures
        key_spec(e) == e.fingerprint.unwrap()@,
{
}

/// Key derivation is pure: value-equal events always yield the same key.
pub proof fn lemma_key_deterministic(e1: Event, e2: Event)
    requires
        e1 == e2,
    ensures
        key_spec(e1) == key_spec(e2),
{
}

} // verus!
