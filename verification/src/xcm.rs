//! The parts of the cross-consensus message format (XCM, version 2) that the
//! execution barriers read: locations, assets and instructions.
//!
//! Payloads that no barrier looks into are kept as plain values, so that a
//! message can be written down in full and handed back unchanged.

use vstd::prelude::*;

verus! {

/// A global identifier of a consensus system.
#[derive(Clone, Debug, PartialEq, Eq)]
pub enum NetworkId {
    Any,
    Named(Vec<u8>),
    Axia,
    AxiaTest,
}

/// An identifier of a body of a chain, such as its council.
#[derive(Clone, Debug, PartialEq, Eq)]
pub enum BodyId {
    Unit,
    Named(Vec<u8>),
    Index(u32),
    Executive,
    Technical,
    Legislative,
    Judicial,
}

/// Which part of a body is meant.
#[derive(Clone, Copy, Debug, PartialEq, Eq)]
pub enum BodyPart {
    Voice,
    Members { count: u32 },
    Fraction { nom: u32, denom: u32 },
    AtLeastProportion { nom: u32, denom: u32 },
    MoreThanProportion { nom: u32, denom: u32 },
}

/// One step of a location, relative to the consensus system it is in.
#[derive(Clone, Debug, PartialEq, Eq)]
pub enum Junction {
    /// An allychain of the relay chain, by its index.
    Allychain(u32),
    AccountId32 { network: NetworkId, id: [u8; 32] },
    AccountIndex64 { network: NetworkId, index: u64 },
    AccountKey20 { network: NetworkId, key: [u8; 20] },
    PalletInstance(u8),
    GeneralIndex(u128),
    GeneralKey(Vec<u8>),
    OnlyChild,
    Plurality { id: BodyId, part: BodyPart },
}

/// The interior of a location: up to eight junctions.
#[derive(Clone, Debug, PartialEq, Eq)]
pub enum Junctions {
    Here,
    X1(Junction),
    X2(Junction, Junction),
    X3(Junction, Junction, Junction),
    X4(Junction, Junction, Junction, Junction),
    X5(Junction, Junction, Junction, Junction, Junction),
    X6(Junction, Junction, Junction, Junction, Junction, Junction),
    X7(Junction, Junction, Junction, Junction, Junction, Junction, Junction),
    X8(Junction, Junction, Junction, Junction, Junction, Junction, Junction, Junction),
}

/// A location: `parents` steps up towards the relay chain, then down
/// through `interior`.
#[derive(Clone, Debug, PartialEq, Eq)]
pub struct MultiLocation {
    pub parents: u8,
    pub interior: Junctions,
}

impl MultiLocation {
    /// The location with the given number of parents and interior.
    pub fn new(parents: u8, interior: Junctions) -> (l: Self)
        ensures
            l.parents == parents,
            l.interior == interior,
    {
        MultiLocation { parents, interior }
    }

    /// The interior junctions of this location.
    pub fn interior(&self) -> (r: &Junctions)
        ensures
            *r == self.interior,
    {
        &self.interior
    }

    /// The number of steps up this location takes.
    pub fn parent_count(&self) -> (r: u8)
        ensures
            r == self.parents,
    {
        self.parents
    }
}

/// How an asset is named.
#[derive(Clone, Debug, PartialEq, Eq)]
pub enum AssetId {
    Concrete(MultiLocation),
    Abstract(Vec<u8>),
}

/// One instance of a non-fungible asset.
#[derive(Clone, Debug, PartialEq, Eq)]
pub enum AssetInstance {
    Undefined,
    Index(u128),
    Array4([u8; 4]),
    Array8([u8; 8]),
    Array16([u8; 16]),
    Array32([u8; 32]),
    Blob(Vec<u8>),
}

/// An amount of a fungible asset, or one instance of a non-fungible one.
#[derive(Clone, Debug, PartialEq, Eq)]
pub enum Fungibility {
    Fungible(u128),
    NonFungible(AssetInstance),
}

/// An asset: what it is and how much of it.
#[derive(Clone, Debug, PartialEq, Eq)]
pub struct MultiAsset {
    pub id: AssetId,
    pub fun: Fungibility,
}

/// A collection of assets.
#[derive(Clone, Debug, PartialEq, Eq)]
pub struct MultiAssets(pub Vec<MultiAsset>);

/// The kind of fungibility that a wildcard matches.
#[derive(Clone, Debug, PartialEq, Eq)]
pub enum WildFungibility {
    Fungible,
    NonFungible,
}

/// A wildcard over assets.
#[derive(Clone, Debug, PartialEq, Eq)]
pub enum WildMultiAsset {
    All,
    AllOf { id: AssetId, fun: WildFungibility },
}

/// Assets named either one by one or by a wildcard.
#[derive(Clone, Debug, PartialEq, Eq)]
pub enum MultiAssetFilter {
    Definite(MultiAssets),
    Wild(WildMultiAsset),
}

/// The most weight that may be bought for execution.
#[derive(Clone, Copy, Debug, PartialEq, Eq)]
pub enum WeightLimit {
    Unlimited,
    Limited(u64),
}

/// The origin under which a call is dispatched.
#[derive(Clone, Copy, Debug, PartialEq, Eq)]
pub enum OriginKind {
    Native,
    SovereignAccount,
    Superuser,
    Xcm,
}

/// Why execution of an instruction failed.
#[derive(Clone, Debug, PartialEq, Eq)]
pub enum XcmError {
    Overflow,
    Unimplemented,
    UntrustedReserveLocation,
    UntrustedTeleportLocation,
    MultiLocationFull,
    MultiLocationNotInvertible,
    BadOrigin,
    InvalidLocation,
    AssetNotFound,
    FailedToTransactAsset,
    NotWithdrawable,
    LocationCannotHold,
    ExceedsMaxMessageSize,
    DestinationUnsupported,
    Transport,
    Unroutable,
    UnknownClaim,
    FailedToDecode,
    TooMuchWeightRequired,
    NotHoldingFees,
    TooExpensive,
    Trap(u64),
    UnhandledXcmVersion,
    WeightLimitReached(u64),
    Barrier,
    WeightNotComputable,
}

/// The answer carried by a `QueryResponse`.
#[derive(Clone, Debug, PartialEq, Eq)]
pub enum Response {
    Null,
    Assets(MultiAssets),
    ExecutionResult(Option<(u32, XcmError)>),
    Version(u32),
}

/// One instruction of a message.
#[derive(Debug, PartialEq, Eq)]
pub enum Instruction {
    WithdrawAsset(MultiAssets),
    ReserveAssetDeposited(MultiAssets),
    ReceiveTeleportedAsset(MultiAssets),
    QueryResponse { query_id: u64, response: Response, max_weight: u64 },
    TransferAsset { assets: MultiAssets, beneficiary: MultiLocation },
    TransferReserveAsset { assets: MultiAssets, dest: MultiLocation, xcm: Xcm },
    /// `call` holds the encoded call.
    Transact { origin_type: OriginKind, require_weight_at_most: u64, call: Vec<u8> },
    HrmpNewChannelOpenRequest { sender: u32, max_message_size: u32, max_capacity: u32 },
    HrmpChannelAccepted { recipient: u32 },
    HrmpChannelClosing { initiator: u32, sender: u32, recipient: u32 },
    ClearOrigin,
    DescendOrigin(Junctions),
    ReportError { query_id: u64, dest: MultiLocation, max_response_weight: u64 },
    DepositAsset { assets: MultiAssetFilter, max_assets: u32, beneficiary: MultiLocation },
    DepositReserveAsset {
        assets: MultiAssetFilter,
        max_assets: u32,
        dest: MultiLocation,
        xcm: Xcm,
    },
    ExchangeAsset { give: MultiAssetFilter, receive: MultiAssets },
    InitiateReserveWithdraw { assets: MultiAssetFilter, reserve: MultiLocation, xcm: Xcm },
    InitiateTeleport { assets: MultiAssetFilter, dest: MultiLocation, xcm: Xcm },
    QueryHolding {
        query_id: u64,
        dest: MultiLocation,
        assets: MultiAssetFilter,
        max_response_weight: u64,
    },
    BuyExecution { fees: MultiAsset, weight_limit: WeightLimit },
    RefundSurplus,
    SetErrorHandler(Xcm),
    SetAppendix(Xcm),
    ClearError,
    ClaimAsset { assets: MultiAssets, ticket: MultiLocation },
    Trap(u64),
    SubscribeVersion { query_id: u64, max_response_weight: u64 },
    UnsubscribeVersion,
}

/// A message: a sequence of instructions.
#[derive(Debug, PartialEq, Eq)]
pub struct Xcm(pub Vec<Instruction>);

} // verus!
