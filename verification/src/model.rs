//! The event model: one observed chain occurrence, tagged by variant,
//! carrying variant-specific payload plus shared context.

use vstd::prelude::*;

verus! {

/// Correlating fields shared across variants; each is present only when
/// meaningful for the originating variant.
pub struct EventContext {
    pub block_number: Option<u64>,
    pub tx_hash: Option<String>,
    pub output_idx: Option<u64>,
}

pub struct BlockRecord {
    pub hash: String,
    pub number: u64,
}

pub struct TransactionRecord {
    pub hash: String,
    pub fee: u64,
}

pub struct TxInputRecord {
    pub tx_id: String,
    pub index: u64,
}

pub struct TxOutputRecord {
    pub address: String,
    pub amount: u64,
}

pub struct OutputAssetRecord {
    pub policy: String,
    pub asset: String,
    pub amount: u64,
}

pub struct MetadataRecord {
    pub label: String,
    pub content: String,
}

pub struct CIP25AssetRecord {
    pub policy: String,
    pub asset: String,
    pub name: Option<String>,
}

pub struct CIP15AssetRecord {
    pub voting_key: String,
    pub stake_pub: String,
    pub nonce: u64,
}

pub struct MintRecord {
    pub policy: String,
    pub asset: String,
    pub quantity: i64,
}

pub enum StakeCredential {
    AddrKeyHash(String),
    ScriptHash(String),
}

/// The closed set of event variants.
pub enum EventData {
    Block(BlockRecord),
    BlockEnd(BlockRecord),
    Transaction(TransactionRecord),
    TransactionEnd(TransactionRecord),
    TxInput(TxInputRecord),
    TxOutput(TxOutputRecord),
    OutputAsset(OutputAssetRecord),
    Metadata(MetadataRecord),
    CIP25Asset(CIP25AssetRecord),
    CIP15Asset(CIP15AssetRecord),
    Mint(MintRecord),
    Collateral { tx_id: String, index: u64 },
    NativeScript { policy_id: String, script_json: String },
    PlutusScript { data: String },
    StakeRegistration { credential: StakeCredential },
    StakeDeregistration { credential: StakeCredential },
    StakeDelegation { credential: StakeCredential, pool_hash: String },
    PoolRegistration { operator: String, pledge: u64 },
    PoolRetirement { pool: String, epoch: u64 },
    GenesisKeyDelegation,
    MoveInstantaneousRewardsCert { from_reserves: bool, from_treasury: bool },
    RollBack { block_slot: u64, block_hash: String },
    VKeyWitness { vkey_hex: String, signature_hex: String },
    NativeWitness { script_json: String },
    PlutusWitness { script_hex: String },
    PlutusRedeemer { purpose: String, input_idx: u64 },
    PlutusDatum { datum_hash: String },
}

impl EventData {
    /// The lowercased textual form of the variant tag.
    pub open spec fn tag(self) -> Seq<char> {
        match self {
            EventData::Block(_) => "block"@,
            EventData::BlockEnd(_) => "blockend"@,
            EventData::Transaction(_) => "transaction"@,
            EventData::TransactionEnd(_) => "transactionend"@,
            EventData::TxInput(_) => "txinput"@,
            EventData::TxOutput(_) => "txoutput"@,
            EventData::OutputAsset(_) => "outputasset"@,
            EventData::Metadata(_) => "metadata"@,
            EventData::CIP25Asset(_) => "cip25asset"@,
            EventData::CIP15Asset(_) => "cip15asset"@,
            EventData::Mint(_) => "mint"@,
            EventData::Collateral { .. } => "collateral"@,
            EventData::NativeScript { .. } => "nativescript"@,
            EventData::PlutusScript { .. } => "plutusscript"@,
            EventData::StakeRegistration { .. } => "stakeregistration"@,
            EventData::StakeDeregistration { .. } => "stakederegistration"@,
            EventData::StakeDelegation { .. } => "stakedelegation"@,
            EventData::PoolRegistration { .. } => "poolregistration"@,
            EventData::PoolRetirement { .. } => "poolretirement"@,
            EventData::GenesisKeyDelegation => "genesiskeydelegation"@,
            EventData::MoveInstantaneousRewardsCert { .. } => "moveinstantaneousrewardscert"@,
            EventData::RollBack { .. } => "rollback"@,
            EventData::VKeyWitness { .. } => "vkeywitness"@,
            EventData::NativeWitness { .. } => "nativewitness"@,
            EventData::PlutusWitness { .. } => "plutuswitness"@,
            EventData::PlutusRedeemer { .. } => "plutusredeemer"@,
            EventData::PlutusDatum { .. } => "plutusdatum"@,
        }
    }

    /// The lowercased variant tag as a string slice.
    pub fn tag_str(&self) -> (r: &'static str)
        ensures
            r@ == self.tag(),
    {
        match self {
            EventData::Block(_) => "block",
            EventData::BlockEnd(_) => "blockend",
            EventData::Transaction(_) => "transaction",
            EventData::TransactionEnd(_) => "transactionend",
            EventData::TxInput(_) => "txinput",
            EventData::TxOutput(_) => "txoutput",
            EventData::OutputAsset(_) => "outputasset",
            EventData::Metadata(_) => "metadata",
            EventData::CIP25Asset(_) => "cip25asset",
            EventData::CIP15Asset(_) => "cip15asset",
            EventData::Mint(_) => "mint",
            EventData::Collateral { .. } => "collateral",
            EventData::NativeScript { .. } => "nativescript",
            EventData::PlutusScript { .. } => "plutusscript",
            EventData::StakeRegistration { .. } => "stakeregistration",
            EventData::StakeDeregistration { .. } => "stakederegistration",
            EventData::StakeDelegation { .. } => "stakedelegation",
            EventData::PoolRegistration { .. } => "poolregistration",
            EventData::PoolRetirement { .. } => "poolretirement",
            EventData::GenesisKeyDelegation => "genesiskeydelegation",
            EventData::MoveInstantaneousRewardsCert { .. } => "moveinstantaneousrewardscert",
            EventData::RollBack { .. } => "rollback",
            EventData::VKeyWitness { .. } => "vkeywitness",
            EventData::NativeWitness { .. } => "nativewitness",
            EventData::PlutusWitness { .. } => "plutuswitness",
            EventData::PlutusRedeemer { .. } => "plutusredeemer",
            EventData::PlutusDatum { .. } => "plutusdatum",
        }
    }
}

/// One observed chain occurrence.
pub struct Event {
    pub context: EventContext,
    pub data: EventData,
    /// An upstream-assigned unique identifier that, when present, overrides
    /// all variant-specific key derivation.
    pub fingerprint: Option<String>,
}

/// Configuration selecting whether output records are partitioned by
/// event-type-derived stream name or written to one fixed stream.
#[derive(Clone, Copy, PartialEq, Eq, Structural)]
pub enum StreamStrategy {
    ByEventType,
    SingleStream,
}

/// The error a failed append surfaces to the caller of the producer loop.
pub struct SinkError {
    pub message: String,
}

} // verus!
