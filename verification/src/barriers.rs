//! Execution barriers: the checks that decide whether an incoming XCM message
//! may be executed at all.

use vstd::prelude::*;
use std::marker::PhantomData;
use crate::weights::Weight;
use crate::xcm::{Instruction, Junction, Junctions, MultiAsset, MultiLocation, WeightLimit, Xcm};

verus! {

/// A set of locations, given by its membership test.
pub trait Contains {
    /// Whether `l` is in the set.
    spec fn spec_contains(l: MultiLocation) -> bool;

    /// Tells whether `l` is in the set.
    fn contains(l: &MultiLocation) -> (b: bool)
        ensures
            b == Self::spec_contains(*l),
    ;
}

/// The handler of query responses: it knows which responses it waits for.
///
/// The contract below takes the handler's answer to depend on the origin and
/// the query id alone, at the moment the barrier asks. A handler that keeps its
/// pending queries in storage answers from that storage as it stands when
/// asked; the barrier asks once per message.
pub trait OnResponse {
    /// Whether a response to query `query_id` from `origin` is awaited.
    spec fn spec_expecting_response(origin: MultiLocation, query_id: u64) -> bool;

    /// Tells whether a response to query `query_id` from `origin` is awaited.
    fn expecting_response(origin: &MultiLocation, query_id: u64) -> (b: bool)
        ensures
            b == Self::spec_expecting_response(*origin, query_id),
    ;
}

/// An allychain id type that can tell system allychains from the others.
pub trait IsSystem: Sized {
    /// The id of the allychain with index `index`.
    spec fn spec_from_index(index: u32) -> Self;

    /// Builds the id of the allychain with index `index`.
    fn from_index(index: u32) -> (id: Self)
        ensures
            id == Self::spec_from_index(index),
    ;

    /// Whether this id belongs to a system allychain.
    spec fn spec_is_system(&self) -> bool;

    /// Tells whether this id belongs to a system allychain.
    fn is_system(&self) -> (b: bool)
        ensures
            b == self.spec_is_system(),
    ;
}

/// A barrier: it decides whether `message` from `origin`, which needs at most
/// `max_weight` to execute, may be executed, given the `weight_credit` that
/// the origin has. It may adjust the message and the credit; `Ok(())` lets
/// the message through.
pub trait ShouldExecute {
    fn should_execute(
        origin: &MultiLocation,
        message: &mut Xcm,
        max_weight: Weight,
        weight_credit: &mut Weight,
    ) -> Result<(), ()>;
}

/// Execution barrier that just takes `max_weight` from `weight_credit`.
///
/// Useful to allow XCM execution by local chain users via extrinsics.
/// E.g. `pallet_xcm::reserve_asset_transfer` to transfer a reserve asset
/// out of the local chain to another one.
pub struct TakeWeightCredit;

impl ShouldExecute for TakeWeightCredit {
    fn should_execute(
        _origin: &MultiLocation,
        _message: &mut Xcm,
        max_weight: Weight,
        weight_credit: &mut Weight,
    ) -> (r: Result<(), ()>)
        ensures
            r is Ok <==> max_weight <= *old(weight_credit),
            r is Ok ==> *final(weight_credit) == *old(weight_credit) - max_weight,
            r is Err ==> *final(weight_credit) == *old(weight_credit),
            *final(_message) == *old(_message),
    {
        match weight_credit.checked_sub(max_weight) {
            Some(rest) => {
                *weight_credit = rest;
                Ok(())
            },
            None => Err(()),
        }
    }
}


/// Whether `i` places assets in the holding register, so that execution can be
/// paid from them.
pub open spec fn places_assets(i: Instruction) -> bool {
    ||| i is ReceiveTeleportedAsset
    ||| i is WithdrawAsset
    ||| i is ReserveAssetDeposited
    ||| i is ClaimAsset
}

/// The first position at or after `i` that does not hold a `ClearOrigin`, or
/// the length of `msg` if there is none.
pub open spec fn skip_clear_origin(msg: Seq<Instruction>, i: int) -> int
    decreases msg.len() - i,
{
    if 0 <= i < msg.len() && msg[i] is ClearOrigin {
        skip_clear_origin(msg, i + 1)
    } else {
        i
    }
}

/// Where a paid message buys its execution: the first instruction after the
/// first one that is not a `ClearOrigin`.
pub open spec fn buy_position(msg: Seq<Instruction>) -> int {
    skip_clear_origin(msg, 1)
}

/// Whether `i` buys execution of at least `max_weight`.
pub open spec fn buys_enough(i: Instruction, max_weight: Weight) -> bool {
    match i {
        Instruction::BuyExecution { weight_limit: WeightLimit::Limited(w), .. } => w >= max_weight,
        Instruction::BuyExecution { weight_limit: WeightLimit::Unlimited, .. } => true,
        _ => false,
    }
}

/// `i` with its weight limit set to `max_weight`, where it buys execution.
pub open spec fn limit_to(i: Instruction, max_weight: Weight) -> Instruction {
    match i {
        Instruction::BuyExecution { fees, .. } => Instruction::BuyExecution {
            fees,
            weight_limit: WeightLimit::Limited(max_weight),
        },
        _ => i,
    }
}

/// Whether `msg` pays for its execution of up to `max_weight`: it starts by
/// placing assets in the holding register and then, after any number of
/// `ClearOrigin`, buys execution of at least `max_weight`.
pub open spec fn pays_for_execution(msg: Seq<Instruction>, max_weight: Weight) -> bool {
    &&& msg.len() >= 1
    &&& places_assets(msg[0])
    &&& buy_position(msg) < msg.len()
    &&& buys_enough(msg[buy_position(msg)], max_weight)
}

/// `msg` once its purchase of execution is limited to exactly `max_weight`.
pub open spec fn with_execution_limited(msg: Seq<Instruction>, max_weight: Weight) -> Seq<
    Instruction,
> {
    msg.update(buy_position(msg), limit_to(msg[buy_position(msg)], max_weight))
}

/// `skip_clear_origin(msg, i)` is the unique `k` at or after `i` with only
/// `ClearOrigin` in between and no `ClearOrigin` at `k` itself.
proof fn lemma_skip_clear_origin_unique(msg: Seq<Instruction>, i: int, k: int)
    requires
        0 <= i <= k <= msg.len(),
        forall|j: int| i <= j < k ==> #[trigger] msg[j] is ClearOrigin,
        k < msg.len() ==> !(msg[k] is ClearOrigin),
    ensures
        skip_clear_origin(msg, i) == k,
    decreases k - i,
{
    if i < k {
        lemma_skip_clear_origin_unique(msg, i + 1, k);
    }
}

/// What `skip_clear_origin` finds: only `ClearOrigin` before it, and none at it.
proof fn lemma_skip_clear_origin_found(msg: Seq<Instruction>, i: int)
    requires
        0 <= i <= msg.len(),
    ensures
        i <= skip_clear_origin(msg, i) <= msg.len(),
        forall|j: int| i <= j < skip_clear_origin(msg, i) ==> #[trigger] msg[j] is ClearOrigin,
        skip_clear_origin(msg, i) < msg.len() ==> !(msg[skip_clear_origin(msg, i)] is ClearOrigin),
    decreases msg.len() - i,
{
    if i < msg.len() && msg[i] is ClearOrigin {
        lemma_skip_clear_origin_found(msg, i + 1);
    }
}

/// A message that passes the paid-execution barrier passes it again once its
/// purchase has been limited, and a second pass changes nothing more: the
/// barrier is idempotent.
pub proof fn lemma_paid_execution_idempotent(msg: Seq<Instruction>, max_weight: Weight)
    requires
        pays_for_execution(msg, max_weight),
    ensures
        pays_for_execution(with_execution_limited(msg, max_weight), max_weight),
        with_execution_limited(with_execution_limited(msg, max_weight), max_weight)
            == with_execution_limited(msg, max_weight),
{
    let k = buy_position(msg);
    let msg2 = with_execution_limited(msg, max_weight);
    lemma_skip_clear_origin_found(msg, 1);
    assert forall|j: int| 1 <= j < k implies #[trigger] msg2[j] is ClearOrigin by {
        assert(msg[j] is ClearOrigin);
    }
    lemma_skip_clear_origin_unique(msg2, 1, k);
    assert(with_execution_limited(msg2, max_weight) =~= msg2);
}

/// Once a message has passed the paid-execution barrier, it buys exactly
/// `max_weight` of execution, at the same place as before, and every other
/// instruction is left as it was.
pub proof fn lemma_paid_execution_buys_exactly(msg: Seq<Instruction>, max_weight: Weight)
    requires
        pays_for_execution(msg, max_weight),
    ensures
        with_execution_limited(msg, max_weight).len() == msg.len(),
        with_execution_limited(msg, max_weight)[buy_position(msg)] matches Instruction::BuyExecution {
            weight_limit: WeightLimit::Limited(w),
            ..
        } && w == max_weight,
        forall|j: int|
            0 <= j < msg.len() && j != buy_position(msg) ==> #[trigger] with_execution_limited(
                msg,
                max_weight,
            )[j] == msg[j],
{
    lemma_skip_clear_origin_found(msg, 1);
}

/// A message that pays for `max_weight` of execution also pays for any smaller
/// weight.
pub proof fn lemma_paid_execution_smaller_weight(
    msg: Seq<Instruction>,
    max_weight: Weight,
    smaller: Weight,
)
    requires
        pays_for_execution(msg, max_weight),
        smaller <= max_weight,
    ensures
        pays_for_execution(msg, smaller),
{
}

fn is_clear_origin(i: &Instruction) -> (b: bool)
    ensures
        b == (*i is ClearOrigin),
{
    match i {
        Instruction::ClearOrigin => true,
        _ => false,
    }
}

/// Allows execution from `origin` if it is contained in `T` (i.e. `T::Contains(origin)`) taking
/// payments into account.
///
/// Only allows for `TeleportAsset`, `WithdrawAsset`, `ClaimAsset` and `ReserveAssetDeposit` XCMs
/// because they are the only ones that place assets in the Holding Register to pay for execution.
pub struct AllowTopLevelPaidExecutionFrom<T>(pub PhantomData<T>);

impl<T: Contains> ShouldExecute for AllowTopLevelPaidExecutionFrom<T> {
    fn should_execute(
        origin: &MultiLocation,
        message: &mut Xcm,
        max_weight: Weight,
        _weight_credit: &mut Weight,
    ) -> (r: Result<(), ()>)
        ensures
            r is Ok <==> T::spec_contains(*origin) && pays_for_execution(old(message).0@, max_weight),
            r is Ok ==> T::spec_contains(*origin),
            r is Ok ==> (old(message).0@.len() >= 1 && (old(message).0@[0] is ReceiveTeleportedAsset
                || old(message).0@[0] is WithdrawAsset || old(message).0@[0] is ReserveAssetDeposited
                || old(message).0@[0] is ClaimAsset)),
            r is Ok ==> final(message).0@ == with_execution_limited(old(message).0@, max_weight),
            r is Err ==> *final(message) == *old(message),
            *final(_weight_credit) == *old(_weight_credit),
    {
        if !T::contains(origin) {
            return Err(());
        }
        let n = message.0.len();
        if n == 0 {
            return Err(());
        }
        match &message.0[0] {
            Instruction::ReceiveTeleportedAsset(..)
            | Instruction::WithdrawAsset(..)
            | Instruction::ReserveAssetDeposited(..)
            | Instruction::ClaimAsset { .. } => {},
            _ => {
                return Err(());
            },
        }
        let ghost msg = message.0@;
        let mut k: usize = 1;
        while k < n && is_clear_origin(&message.0[k])
            invariant
                1 <= k <= n,
                n == message.0.len(),
                msg == message.0@,
                skip_clear_origin(msg, 1) == skip_clear_origin(msg, k as int),
            decreases n - k,
        {
            k = k + 1;
        }
        if k == n {
            return Err(());
        }
        let accept = match &message.0[k] {
            Instruction::BuyExecution { weight_limit: WeightLimit::Limited(w), .. } => *w
                >= max_weight,
            Instruction::BuyExecution { weight_limit: WeightLimit::Unlimited, .. } => true,
            _ => false,
        };
        if !accept {
            return Err(());
        }
        let bought = message.0.remove(k);
        let limited = match bought {
            Instruction::BuyExecution { fees, .. } => Instruction::BuyExecution {
                fees,
                weight_limit: WeightLimit::Limited(max_weight),
            },
            other => other,
        };
        message.0.insert(k, limited);
        assert(message.0@ =~= with_execution_limited(msg, max_weight));
        Ok(())
    }
}

/// Allows execution from any origin that is contained in `T` (i.e. `T::Contains(origin)`) without any payments.
/// Use only for executions from trusted origin groups.
pub struct AllowUnpaidExecutionFrom<T>(pub PhantomData<T>);

impl<T: Contains> ShouldExecute for AllowUnpaidExecutionFrom<T> {
    fn should_execute(
        origin: &MultiLocation,
        _message: &mut Xcm,
        _max_weight: Weight,
        _weight_credit: &mut Weight,
    ) -> (r: Result<(), ()>)
        ensures
            r is Ok <==> T::spec_contains(*origin),
            *final(_message) == *old(_message),
            *final(_weight_credit) == *old(_weight_credit),
    {
        if !T::contains(origin) {
            return Err(());
        }
        Ok(())
    }
}

/// The index of the allychain that `l` names when it is a direct child of the
/// chain it is interpreted on: no parents and a single `Allychain` junction.
pub open spec fn child_allychain(l: MultiLocation) -> Option<u32> {
    if l.parents == 0 {
        match l.interior {
            Junctions::X1(Junction::Allychain(id)) => Some(id),
            _ => None,
        }
    } else {
        None
    }
}

/// Allows a message only if it is from a system-level child allychain.
pub struct IsChildSystemAllychain<ParaId>(pub PhantomData<ParaId>);

impl<ParaId: IsSystem> Contains for IsChildSystemAllychain<ParaId> {
    open spec fn spec_contains(l: MultiLocation) -> bool {
        match child_allychain(l) {
            Some(id) => ParaId::spec_from_index(id).spec_is_system(),
            None => false,
        }
    }

    fn contains(l: &MultiLocation) -> (b: bool)
        ensures
            b <==> (l.parents == 0 && match l.interior {
                Junctions::X1(Junction::Allychain(id)) => ParaId::spec_from_index(id).spec_is_system(),
                _ => false,
            }),
    {
        match l.interior() {
            Junctions::X1(Junction::Allychain(id)) => ParaId::from_index(*id).is_system()
                && l.parent_count() == 0,
            _ => false,
        }
    }
}

/// Allows only messages if the generic `ResponseHandler` expects them via `expecting_response`.
pub struct AllowKnownQueryResponses<ResponseHandler>(pub PhantomData<ResponseHandler>);

/// Whether `msg` starts with a response to a query that `R` awaits from `origin`.
pub open spec fn is_expected_response<R: OnResponse>(
    origin: MultiLocation,
    msg: Seq<Instruction>,
) -> bool {
    &&& msg.len() >= 1
    &&& match msg[0] {
        Instruction::QueryResponse { query_id, .. } => R::spec_expecting_response(
            origin,
            query_id,
        ),
        _ => false,
    }
}

impl<ResponseHandler: OnResponse> ShouldExecute for AllowKnownQueryResponses<ResponseHandler> {
    fn should_execute(
        origin: &MultiLocation,
        message: &mut Xcm,
        _max_weight: Weight,
        _weight_credit: &mut Weight,
    ) -> (r: Result<(), ()>)
        ensures
            r is Ok <==> is_expected_response::<ResponseHandler>(*origin, old(message).0@),
            r is Ok <==> (old(message).0@.len() >= 1 && match old(message).0@[0] {
                Instruction::QueryResponse { query_id, .. } => ResponseHandler::spec_expecting_response(
                    *origin,
                    query_id,
                ),
                _ => false,
            }),
            *final(message) == *old(message),
            *final(_weight_credit) == *old(_weight_credit),
    {
        if message.0.len() == 0 {
            return Err(());
        }
        match &message.0[0] {
            Instruction::QueryResponse { query_id, .. } => {
                if ResponseHandler::expecting_response(origin, *query_id) {
                    Ok(())
                } else {
                    Err(())
                }
            },
            _ => Err(()),
        }
    }
}

/// Whether `msg` is a lone `SubscribeVersion` or `UnsubscribeVersion`.
pub open spec fn is_lone_subscription(msg: Seq<Instruction>) -> bool {
    &&& msg.len() == 1
    &&& (msg[0] is SubscribeVersion || msg[0] is UnsubscribeVersion)
}

/// Allows execution from `origin` if it is just a straight `SubscribeVerison` or
/// `UnsubscribeVersion` instruction.
pub struct AllowSubscriptionsFrom<T>(pub PhantomData<T>);

impl<T: Contains> ShouldExecute for AllowSubscriptionsFrom<T> {
    fn should_execute(
        origin: &MultiLocation,
        message: &mut Xcm,
        _max_weight: Weight,
        _weight_credit: &mut Weight,
    ) -> (r: Result<(), ()>)
        ensures
            r is Ok <==> T::spec_contains(*origin) && is_lone_subscription(old(message).0@),
            r is Ok <==> (T::spec_contains(*origin) && old(message).0@.len() == 1 && (old(
                message,
            ).0@[0] is SubscribeVersion || old(message).0@[0] is UnsubscribeVersion)),
            *final(message) == *old(message),
            *final(_weight_credit) == *old(_weight_credit),
    {
        if !T::contains(origin) {
            return Err(());
        }
        if message.0.len() != 1 {
            return Err(());
        }
        match &message.0[0] {
            Instruction::SubscribeVersion { .. } | Instruction::UnsubscribeVersion => Ok(()),
            _ => Err(()),
        }
    }
}


/// A paid message is decided at the first instruction after the first one that
/// is not a `ClearOrigin`: it passes exactly when it opens by withdrawing,
/// receiving by teleport, receiving as a reserve deposit or claiming assets,
/// and that instruction buys execution of at least `max_weight` (or without
/// limit).
pub proof fn lemma_paid_execution_decided_at(msg: Seq<Instruction>, k: int, max_weight: Weight)
    requires
        1 <= k < msg.len(),
        forall|j: int| 1 <= j < k ==> #[trigger] msg[j] is ClearOrigin,
        !(msg[k] is ClearOrigin),
    ensures
        pays_for_execution(msg, max_weight) <==> ((msg[0] is ReceiveTeleportedAsset || msg[0] is WithdrawAsset
            || msg[0] is ReserveAssetDeposited || msg[0] is ClaimAsset) && match msg[k] {
            Instruction::BuyExecution { weight_limit: WeightLimit::Limited(v), .. } => v >= max_weight,
            Instruction::BuyExecution { weight_limit: WeightLimit::Unlimited, .. } => true,
            _ => false,
        }),
{
    lemma_skip_clear_origin_unique(msg, 1, k);
}

/// A message that does not open by placing assets in the holding register, or
/// that never gets past `ClearOrigin` after its first instruction, does not
/// pay for its execution.
pub proof fn lemma_paid_execution_refusals(msg: Seq<Instruction>, max_weight: Weight)
    ensures
        msg.len() == 0 ==> !pays_for_execution(msg, max_weight),
        msg.len() >= 1 && !(msg[0] is ReceiveTeleportedAsset || msg[0] is WithdrawAsset
            || msg[0] is ReserveAssetDeposited || msg[0] is ClaimAsset) ==> !pays_for_execution(
            msg,
            max_weight,
        ),
        (forall|j: int| 1 <= j < msg.len() ==> #[trigger] msg[j] is ClearOrigin)
            ==> !pays_for_execution(msg, max_weight),
{
    if msg.len() >= 1 && (forall|j: int| 1 <= j < msg.len() ==> #[trigger] msg[j] is ClearOrigin) {
        lemma_skip_clear_origin_unique(msg, 1, msg.len() as int);
    }
}

/// Every message that opens with `first` placing assets in the holding
/// register (by withdrawal, teleport, reserve deposit or claim), goes on with
/// any number of `ClearOrigin`, and then buys execution of at least
/// `max_weight` (or without limit) pays for its execution; passing the barrier
/// leaves all of it as it was, except that the purchase is of exactly
/// `max_weight`.
pub proof fn lemma_paid_execution_accepts(
    first: Instruction,
    clears: Seq<Instruction>,
    fees: MultiAsset,
    limit: WeightLimit,
    rest: Seq<Instruction>,
    max_weight: Weight,
)
    requires
        first is ReceiveTeleportedAsset || first is WithdrawAsset || first is ReserveAssetDeposited
            || first is ClaimAsset,
        forall|j: int| 0 <= j < clears.len() ==> #[trigger] clears[j] is ClearOrigin,
        match limit {
            WeightLimit::Limited(v) => v >= max_weight,
            WeightLimit::Unlimited => true,
        },
    ensures
        pays_for_execution(
            seq![first] + clears + seq![Instruction::BuyExecution { fees, weight_limit: limit }] + rest,
            max_weight,
        ),
        with_execution_limited(
            seq![first] + clears + seq![Instruction::BuyExecution { fees, weight_limit: limit }] + rest,
            max_weight,
        ) == seq![first] + clears + seq![
            Instruction::BuyExecution { fees, weight_limit: WeightLimit::Limited(max_weight) },
        ] + rest,
{
    let msg = seq![first] + clears + seq![Instruction::BuyExecution { fees, weight_limit: limit }]
        + rest;
    let k: int = clears.len() as int + 1;
    assert forall|j: int| 1 <= j < k implies #[trigger] msg[j] is ClearOrigin by {
        assert(msg[j] == clears[j - 1]);
    }
    assert(msg[k] == Instruction::BuyExecution { fees, weight_limit: limit });
    lemma_skip_clear_origin_unique(msg, 1, k);
    assert(with_execution_limited(msg, max_weight) =~= seq![first] + clears + seq![
        Instruction::BuyExecution { fees, weight_limit: WeightLimit::Limited(max_weight) },
    ] + rest);
}

/// A location is a child system allychain exactly when it has no parents, its
/// interior is a single `Allychain` junction, and the id built from that
/// junction's index is a system id. In particular the local chain itself
/// (no parents, no interior) is not one.
pub proof fn lemma_child_system_allychain<P: IsSystem>(l: MultiLocation)
    ensures
        <IsChildSystemAllychain<P> as Contains>::spec_contains(l) <==> (l.parents == 0
            && match l.interior {
            Junctions::X1(Junction::Allychain(id)) => P::spec_from_index(id).spec_is_system(),
            _ => false,
        }),
        l.interior is Here ==> !<IsChildSystemAllychain<P> as Contains>::spec_contains(l),
        l.parents != 0 ==> !<IsChildSystemAllychain<P> as Contains>::spec_contains(l),
{
}

/// A message passes as a known query response exactly when it opens with a
/// response to a query that the handler awaits from the very origin the
/// message comes from.
pub proof fn lemma_known_response_from_its_origin<R: OnResponse>(
    origin: MultiLocation,
    msg: Seq<Instruction>,
)
    ensures
        is_expected_response::<R>(origin, msg) <==> (msg.len() >= 1 && match msg[0] {
            Instruction::QueryResponse { query_id, .. } => R::spec_expecting_response(origin, query_id),
            _ => false,
        }),
{
}

/// A lone `SubscribeVersion`, whatever its query id and response weight, and a
/// lone `UnsubscribeVersion` are subscriptions; a message of any other length,
/// or a lone instruction of any other kind, is not.
pub proof fn lemma_lone_subscriptions(msg: Seq<Instruction>, query_id: u64, max_response_weight: u64)
    ensures
        is_lone_subscription(seq![Instruction::SubscribeVersion { query_id, max_response_weight }]),
        is_lone_subscription(seq![Instruction::UnsubscribeVersion]),
        msg.len() != 1 ==> !is_lone_subscription(msg),
        msg.len() == 1 && !(msg[0] is SubscribeVersion) && !(msg[0] is UnsubscribeVersion)
            ==> !is_lone_subscription(msg),
{
}

} // verus!
