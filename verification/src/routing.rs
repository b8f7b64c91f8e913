//! Sending and executing cross-consensus messages.
//!
//! Senders can be chained in tuples: each member in turn is offered the
//! message, and a member that answers `CannotReachDestination` hands the
//! (possibly altered) destination and message on to the next member. Any other
//! answer ends the routing with that answer.

use vstd::prelude::*;
use crate::xcm::{
    DoubleEncoded, Error, MultiAsset, MultiAssetFilter, MultiAssets, MultiLocation, Order, OriginKind, Outcome,
    Response, Weight, Xcm, XcmResult,
};

verus! {

/// What routing does with one sender's answer: hand the destination and message
/// that came back to the next sender, or stop with that answer.
pub open spec fn hand_on(answer: XcmResult, next: spec_fn(MultiLocation, Xcm<()>, XcmResult) -> bool, result: XcmResult) -> bool {
    match answer {
        Err(Error::CannotReachDestination(d, m)) => next(d, m, result),
        _ => result == answer,
    }
}

/// Utility for sending an XCM `message` to a given `destination`.
///
/// A sender that cannot reach the destination but leaves it to others must answer
/// `CannotReachDestination`; any other error makes a tuple of senders stop early
/// without trying the senders after it.
///
/// Outside verified code, `sends` is an ordinary required method that is never
/// called: there it documents the answers, and nothing checks it.
pub trait SendXcm {
    /// `result` is an answer that this sender may give to `message` for `destination`.
    spec fn sends(destination: MultiLocation, message: Xcm<()>, result: XcmResult) -> bool;

    /// Send an XCM `message` to a given `destination`.
    fn send_xcm(destination: MultiLocation, message: Xcm<()>) -> (result: XcmResult)
        ensures
            Self::sends(destination, message, result),
    ;
}

/// The empty chain of senders reaches nothing: it hands back what it was given.
impl SendXcm for () {
    open spec fn sends(destination: MultiLocation, message: Xcm<()>, result: XcmResult) -> bool {
        result == Err::<(), Error>(Error::CannotReachDestination(destination, message))
    }

    fn send_xcm(destination: MultiLocation, message: Xcm<()>) -> (result: XcmResult) {
        Err(Error::CannotReachDestination(destination, message))
    }
}

/// A chain of one sender answers as that sender does.
pub proof fn lemma_single_chain<A: SendXcm>(destination: MultiLocation, message: Xcm<()>, result: XcmResult)
    ensures
        <(A,) as SendXcm>::sends(destination, message, result) <==> A::sends(destination, message, result),
{
    if <(A,) as SendXcm>::sends(destination, message, result) {
        let a = choose|a: XcmResult|
            #[trigger] A::sends(destination, message, a) && hand_on(a, |d, m, r| <() as SendXcm>::sends(d, m, r), result);
        match a {
            Err(Error::CannotReachDestination(d, m)) => {},
            _ => {},
        }
    }
    if A::sends(destination, message, result) {
        match result {
            Err(Error::CannotReachDestination(d, m)) => {
                assert(hand_on(result, |d, m, r| <() as SendXcm>::sends(d, m, r), result));
            },
            _ => {},
        }
    }
}

/// An answer other than `CannotReachDestination` from the first sender is the
/// answer of the chain: the senders after it are not tried.
pub proof fn lemma_chain_stops<A: SendXcm, B: SendXcm>(destination: MultiLocation, message: Xcm<()>, answer: XcmResult)
    requires
        A::sends(destination, message, answer),
        !(answer matches Err(Error::CannotReachDestination(_, _))),
    ensures
        <(A, B) as SendXcm>::sends(destination, message, answer),
{
    assert(hand_on(answer, |d, m, r| <(B,) as SendXcm>::sends(d, m, r), answer));
}

/// A `CannotReachDestination` from the first sender hands the destination and
/// message that it carries to the next sender, whose answer is the chain's.
pub proof fn lemma_chain_hands_on<A: SendXcm, B: SendXcm>(
    destination: MultiLocation,
    message: Xcm<()>,
    next_destination: MultiLocation,
    next_message: Xcm<()>,
    result: XcmResult,
)
    requires
        A::sends(
            destination,
            message,
            Err::<(), Error>(Error::CannotReachDestination(next_destination, next_message)),
        ),
        B::sends(next_destination, next_message, result),
    ensures
        <(A, B) as SendXcm>::sends(destination, message, result),
{
    lemma_single_chain::<B>(next_destination, next_message, result);
    let a = Err::<(), Error>(Error::CannotReachDestination(next_destination, next_message));
    assert(hand_on(a, |d, m, r| <(B,) as SendXcm>::sends(d, m, r), result));
}

/// The empty chain is neutral: chained before or after a sender, the chain
/// answers as that sender does.
pub proof fn lemma_empty_chain_is_neutral<A: SendXcm>(destination: MultiLocation, message: Xcm<()>, result: XcmResult)
    ensures
        <(A, ()) as SendXcm>::sends(destination, message, result) <==> A::sends(destination, message, result),
        <((), A) as SendXcm>::sends(destination, message, result) <==> A::sends(destination, message, result),
{
    lemma_single_chain::<A>(destination, message, result);
    assert forall|d: MultiLocation, m: Xcm<()>, r: XcmResult|
        <((),) as SendXcm>::sends(d, m, r) <==> #[trigger] <() as SendXcm>::sends(d, m, r) by {
        lemma_single_chain::<()>(d, m, r);
    }
    if <(A, ()) as SendXcm>::sends(destination, message, result) {
        let a = choose|a: XcmResult|
            #[trigger] A::sends(destination, message, a) && hand_on(a, |d, m, r| <((),) as SendXcm>::sends(d, m, r), result);
        assert(hand_on(a, |d, m, r| <() as SendXcm>::sends(d, m, r), result));
    }
    if A::sends(destination, message, result) {
        assert(<(A,) as SendXcm>::sends(destination, message, result));
        let a = choose|a: XcmResult|
            #[trigger] A::sends(destination, message, a) && hand_on(a, |d, m, r| <() as SendXcm>::sends(d, m, r), result);
        assert(hand_on(a, |d, m, r| <((),) as SendXcm>::sends(d, m, r), result));
        let e = Err::<(), Error>(Error::CannotReachDestination(destination, message));
        assert(<() as SendXcm>::sends(destination, message, e));
        assert(hand_on(e, |d, m, r| <(A,) as SendXcm>::sends(d, m, r), result));
    }
    if <((), A) as SendXcm>::sends(destination, message, result) {
        let a = choose|a: XcmResult|
            #[trigger] <() as SendXcm>::sends(destination, message, a) && hand_on(a, |d, m, r| <(A,) as SendXcm>::sends(d, m, r), result);
        assert(<(A,) as SendXcm>::sends(destination, message, result));
    }
}

/// A chain of two senders, stated against the senders themselves: it answers
/// `result` exactly when the first sender answers some `a` and either `a` is a
/// `CannotReachDestination`, whose destination and message the second sender
/// then answers with `result`, or `a` is any other answer and is `result`.
pub proof fn lemma_chain_of_2<A: SendXcm, B: SendXcm>(destination: MultiLocation, message: Xcm<()>, result: XcmResult)
    ensures
        <(A, B) as SendXcm>::sends(destination, message, result) <==> exists|a: XcmResult|
            #[trigger] A::sends(destination, message, a) && match a {
                Err(Error::CannotReachDestination(d, m)) => B::sends(d, m, result),
                _ => result == a,
            },
{
    assert forall|d: MultiLocation, m: Xcm<()>, r: XcmResult|
        <(B,) as SendXcm>::sends(d, m, r) <==> #[trigger] B::sends(d, m, r) by {
        lemma_single_chain::<B>(d, m, r);
    }
    if <(A, B) as SendXcm>::sends(destination, message, result) {
        let a = choose|a: XcmResult|
            #[trigger] A::sends(destination, message, a) && hand_on(a, |d, m, r| <(B,) as SendXcm>::sends(d, m, r), result);
        match a {
            Err(Error::CannotReachDestination(d, m)) => {
                assert(B::sends(d, m, result));
            },
            _ => {},
        }
    }
    if exists|a: XcmResult|
        #[trigger] A::sends(destination, message, a) && match a {
            Err(Error::CannotReachDestination(d, m)) => B::sends(d, m, result),
            _ => result == a,
        } {
        let a = choose|a: XcmResult|
            #[trigger] A::sends(destination, message, a) && match a {
                Err(Error::CannotReachDestination(d, m)) => B::sends(d, m, result),
                _ => result == a,
            };
        assert(hand_on(a, |d, m, r| <(B,) as SendXcm>::sends(d, m, r), result));
    }
}

/// Chaining is associative on the right: a chain of three senders answers as
/// its first sender chained with the chain of the other two.
pub proof fn lemma_chain_nests_right<A: SendXcm, B: SendXcm, C: SendXcm>(
    destination: MultiLocation,
    message: Xcm<()>,
    result: XcmResult,
)
    ensures
        <(A, B, C) as SendXcm>::sends(destination, message, result) <==> <(A, (B, C)) as SendXcm>::sends(destination, message, result),
{
    assert forall|d: MultiLocation, m: Xcm<()>, r: XcmResult|
        <((B, C),) as SendXcm>::sends(d, m, r) <==> #[trigger] <(B, C) as SendXcm>::sends(d, m, r) by {
        lemma_single_chain::<(B, C)>(d, m, r);
    }
    if <(A, B, C) as SendXcm>::sends(destination, message, result) {
        let a = choose|a: XcmResult|
            #[trigger] A::sends(destination, message, a) && hand_on(a, |d, m, r| <(B, C) as SendXcm>::sends(d, m, r), result);
        assert(hand_on(a, |d, m, r| <((B, C),) as SendXcm>::sends(d, m, r), result));
    }
    if <(A, (B, C)) as SendXcm>::sends(destination, message, result) {
        let a = choose|a: XcmResult|
            #[trigger] A::sends(destination, message, a) && hand_on(a, |d, m, r| <((B, C),) as SendXcm>::sends(d, m, r), result);
        assert(hand_on(a, |d, m, r| <(B, C) as SendXcm>::sends(d, m, r), result));
    }
}

/// Chaining is associative on the left: a chain of three senders answers as
/// the chain of its first two senders chained with the third.
pub proof fn lemma_chain_nests_left<A: SendXcm, B: SendXcm, C: SendXcm>(
    destination: MultiLocation,
    message: Xcm<()>,
    result: XcmResult,
)
    ensures
        <(A, B, C) as SendXcm>::sends(destination, message, result) <==> <((A, B), C) as SendXcm>::sends(destination, message, result),
{
    assert forall|d: MultiLocation, m: Xcm<()>, r: XcmResult|
        <(B,) as SendXcm>::sends(d, m, r) <==> #[trigger] B::sends(d, m, r) by {
        lemma_single_chain::<B>(d, m, r);
    }
    if <(A, B, C) as SendXcm>::sends(destination, message, result) {
        let a = choose|a: XcmResult|
            #[trigger] A::sends(destination, message, a) && hand_on(a, |d, m, r| <(B, C) as SendXcm>::sends(d, m, r), result);
        match a {
            Err(Error::CannotReachDestination(d2, m2)) => {
                let b = choose|b: XcmResult|
                    #[trigger] B::sends(d2, m2, b) && hand_on(b, |d, m, r| <(C,) as SendXcm>::sends(d, m, r), result);
                assert(<(B,) as SendXcm>::sends(d2, m2, b));
                assert(hand_on(a, |d, m, r| <(B,) as SendXcm>::sends(d, m, r), b));
                assert(<(A, B) as SendXcm>::sends(destination, message, b));
            },
            _ => {
                assert(hand_on(a, |d, m, r| <(B,) as SendXcm>::sends(d, m, r), a));
                assert(<(A, B) as SendXcm>::sends(destination, message, a));
                assert(hand_on(a, |d, m, r| <(C,) as SendXcm>::sends(d, m, r), result));
            },
        }
    }
    if <((A, B), C) as SendXcm>::sends(destination, message, result) {
        let x = choose|x: XcmResult|
            #[trigger] <(A, B) as SendXcm>::sends(destination, message, x) && hand_on(x, |d, m, r| <(C,) as SendXcm>::sends(d, m, r), result);
        let a = choose|a: XcmResult|
            #[trigger] A::sends(destination, message, a) && hand_on(a, |d, m, r| <(B,) as SendXcm>::sends(d, m, r), x);
        match a {
            Err(Error::CannotReachDestination(d2, m2)) => {
                assert(B::sends(d2, m2, x));
                assert(<(B, C) as SendXcm>::sends(d2, m2, result));
                assert(hand_on(a, |d, m, r| <(B, C) as SendXcm>::sends(d, m, r), result));
            },
            _ => {
                assert(hand_on(a, |d, m, r| <(B, C) as SendXcm>::sends(d, m, r), result));
            },
        }
    }
}

/// A sender that gives at most one answer to each destination and message:
/// two calls on the same input answer alike.
pub open spec fn answers_uniquely<S: SendXcm>() -> bool {
    forall|d: MultiLocation, m: Xcm<()>, r1: XcmResult, r2: XcmResult|
        #[trigger] S::sends(d, m, r1) && #[trigger] S::sends(d, m, r2) ==> r1 == r2
}

/// Handing one answer on to a next step that answers uniquely gives one result.
proof fn lemma_hand_on_unique(
    answer: XcmResult,
    next: spec_fn(MultiLocation, Xcm<()>, XcmResult) -> bool,
    r1: XcmResult,
    r2: XcmResult,
)
    requires
        hand_on(answer, next, r1),
        hand_on(answer, next, r2),
        forall|d: MultiLocation, m: Xcm<()>, x: XcmResult, y: XcmResult|
            #[trigger] next(d, m, x) && #[trigger] next(d, m, y) ==> x == y,
    ensures
        r1 == r2,
{
    match answer {
        Err(Error::CannotReachDestination(d, m)) => {
            assert(next(d, m, r1) && next(d, m, r2));
        },
        _ => {},
    }
}

/// The empty chain answers uniquely, and a chain of senders that each answer
/// uniquely answers uniquely.
pub proof fn lemma_chains_answer_uniquely<A: SendXcm, B: SendXcm, C: SendXcm>()
    requires
        answers_uniquely::<A>(),
        answers_uniquely::<B>(),
        answers_uniquely::<C>(),
    ensures
        answers_uniquely::<()>(),
        answers_uniquely::<(A,)>(),
        answers_uniquely::<(A, B)>(),
        answers_uniquely::<(A, B, C)>(),
{
    assert forall|d: MultiLocation, m: Xcm<()>, r1: XcmResult, r2: XcmResult|
        #[trigger] <(C,) as SendXcm>::sends(d, m, r1) && #[trigger] <(C,) as SendXcm>::sends(d, m, r2) implies r1 == r2 by {
        lemma_single_chain::<C>(d, m, r1);
        lemma_single_chain::<C>(d, m, r2);
    }
    assert forall|d: MultiLocation, m: Xcm<()>, r1: XcmResult, r2: XcmResult|
        #[trigger] <(A,) as SendXcm>::sends(d, m, r1) && #[trigger] <(A,) as SendXcm>::sends(d, m, r2) implies r1 == r2 by {
        lemma_single_chain::<A>(d, m, r1);
        lemma_single_chain::<A>(d, m, r2);
    }
    assert forall|d: MultiLocation, m: Xcm<()>, r1: XcmResult, r2: XcmResult|
        #[trigger] <(B,) as SendXcm>::sends(d, m, r1) && #[trigger] <(B,) as SendXcm>::sends(d, m, r2) implies r1 == r2 by {
        lemma_single_chain::<B>(d, m, r1);
        lemma_single_chain::<B>(d, m, r2);
    }
    assert forall|d: MultiLocation, m: Xcm<()>, r1: XcmResult, r2: XcmResult|
        #[trigger] <(A, B) as SendXcm>::sends(d, m, r1) && #[trigger] <(A, B) as SendXcm>::sends(d, m, r2) implies r1 == r2 by {
        let a1 = choose|a: XcmResult|
            #[trigger] A::sends(d, m, a) && hand_on(a, |d, m, r| <(B,) as SendXcm>::sends(d, m, r), r1);
        let a2 = choose|a: XcmResult|
            #[trigger] A::sends(d, m, a) && hand_on(a, |d, m, r| <(B,) as SendXcm>::sends(d, m, r), r2);
        assert(a1 == a2);
        lemma_hand_on_unique(a1, |d, m, r| <(B,) as SendXcm>::sends(d, m, r), r1, r2);
    }
    assert forall|d: MultiLocation, m: Xcm<()>, r1: XcmResult, r2: XcmResult|
        #[trigger] <(B, C) as SendXcm>::sends(d, m, r1) && #[trigger] <(B, C) as SendXcm>::sends(d, m, r2) implies r1 == r2 by {
        let b1 = choose|b: XcmResult|
            #[trigger] B::sends(d, m, b) && hand_on(b, |d, m, r| <(C,) as SendXcm>::sends(d, m, r), r1);
        let b2 = choose|b: XcmResult|
            #[trigger] B::sends(d, m, b) && hand_on(b, |d, m, r| <(C,) as SendXcm>::sends(d, m, r), r2);
        assert(b1 == b2);
        lemma_hand_on_unique(b1, |d, m, r| <(C,) as SendXcm>::sends(d, m, r), r1, r2);
    }
    assert forall|d: MultiLocation, m: Xcm<()>, r1: XcmResult, r2: XcmResult|
        #[trigger] <(A, B, C) as SendXcm>::sends(d, m, r1) && #[trigger] <(A, B, C) as SendXcm>::sends(d, m, r2) implies r1 == r2 by {
        let a1 = choose|a: XcmResult|
            #[trigger] A::sends(d, m, a) && hand_on(a, |d, m, r| <(B, C) as SendXcm>::sends(d, m, r), r1);
        let a2 = choose|a: XcmResult|
            #[trigger] A::sends(d, m, a) && hand_on(a, |d, m, r| <(B, C) as SendXcm>::sends(d, m, r), r2);
        assert(a1 == a2);
        lemma_hand_on_unique(a1, |d, m, r| <(B, C) as SendXcm>::sends(d, m, r), r1, r2);
    }
}

/// For senders that answer uniquely, a chain of one sender and that sender give
/// the same answer, and so do the three nestings of a chain of three.
pub proof fn lemma_unique_chains_agree<A: SendXcm, B: SendXcm, C: SendXcm>(
    destination: MultiLocation,
    message: Xcm<()>,
    r1: XcmResult,
    r2: XcmResult,
    r3: XcmResult,
)
    requires
        answers_uniquely::<A>(),
        answers_uniquely::<B>(),
        answers_uniquely::<C>(),
    ensures
        <(A,) as SendXcm>::sends(destination, message, r1) && A::sends(destination, message, r2) ==> r1 == r2,
        <(A, B, C) as SendXcm>::sends(destination, message, r1) && <(A, (B, C)) as SendXcm>::sends(
            destination,
            message,
            r2,
        ) && <((A, B), C) as SendXcm>::sends(destination, message, r3) ==> r1 == r2 && r1 == r3,
{
    lemma_chains_answer_uniquely::<A, B, C>();
    lemma_single_chain::<A>(destination, message, r1);
    lemma_chain_nests_right::<A, B, C>(destination, message, r2);
    lemma_chain_nests_left::<A, B, C>(destination, message, r3);
}

/// Type of XCM message executor.
///
/// Outside verified code, `executes` is an ordinary required method that is
/// never called: there it documents the outcomes, and nothing checks it.
pub trait ExecuteXcm<Call> {
    /// `outcome` is an outcome that this executor may report for executing `message`
    /// from `origin` within `weight_limit`, given `weight_credit`.
    spec fn executes(
        origin: MultiLocation,
        message: Xcm<Call>,
        weight_limit: Weight,
        weight_credit: Weight,
        outcome: Outcome,
    ) -> bool;

    /// Execute some XCM `message` from `origin` using no more than `weight_limit` weight. The weight limit is
    /// a basic hard-limit and the implementation may place further restrictions or requirements on weight and
    /// other aspects. No weight is credited.
    fn execute_xcm(origin: MultiLocation, message: Xcm<Call>, weight_limit: Weight) -> (outcome: Outcome)
        ensures
            Self::executes(origin, message, weight_limit, 0, outcome),
            outcome.used_weight() <= weight_limit,
    {
        Self::execute_xcm_in_credit(origin, message, weight_limit, 0)
    }

    /// Execute some XCM `message` from `origin` using no more than `weight_limit` weight.
    ///
    /// Some amount of `weight_credit` may be provided which, depending on the implementation, may allow
    /// execution without associated payment.
    fn execute_xcm_in_credit(
        origin: MultiLocation,
        message: Xcm<Call>,
        weight_limit: Weight,
        weight_credit: Weight,
    ) -> (outcome: Outcome)
        ensures
            Self::executes(origin, message, weight_limit, weight_credit, outcome),
            outcome.used_weight() <= weight_limit,
    ;
}

/// The executor that executes nothing.
impl<C> ExecuteXcm<C> for () {
    open spec fn executes(
        origin: MultiLocation,
        message: Xcm<C>,
        weight_limit: Weight,
        weight_credit: Weight,
        outcome: Outcome,
    ) -> bool {
        outcome == Outcome::Error(Error::Unimplemented)
    }

    fn execute_xcm_in_credit(
        origin: MultiLocation,
        message: Xcm<C>,
        weight_limit: Weight,
        weight_credit: Weight,
    ) -> (outcome: Outcome) {
        Outcome::Error(Error::Unimplemented)
    }
}

/// An executor that reports at most one outcome for each origin, message,
/// limit and credit: two calls on the same input report alike.
pub open spec fn executes_uniquely<Call, E: ExecuteXcm<Call>>() -> bool {
    forall|o: MultiLocation, m: Xcm<Call>, l: Weight, c: Weight, x: Outcome, y: Outcome|
        #[trigger] E::executes(o, m, l, c, x) && #[trigger] E::executes(o, m, l, c, y) ==> x == y
}

/// For an executor that reports uniquely, `execute_xcm` reports what
/// `execute_xcm_in_credit` reports with no credit.
pub proof fn lemma_execute_is_zero_credit<Call, E: ExecuteXcm<Call>>(
    origin: MultiLocation,
    message: Xcm<Call>,
    weight_limit: Weight,
    plain: Outcome,
    credited: Outcome,
)
    requires
        executes_uniquely::<Call, E>(),
        E::executes(origin, message, weight_limit, 0, plain),
        E::executes(origin, message, weight_limit, 0, credited),
    ensures
        plain == credited,
{
}

/// A simple trait to get the weight of some object.
pub trait GetWeight<W> {
    fn weight(&self) -> Weight;
}

/// The information needed to weigh an XCM: the weight of each kind of
/// instruction and order, by its arguments.
pub trait XcmWeightInfo<Call> {
    fn order_noop() -> Weight;
    fn order_deposit_asset(assets: &MultiAssetFilter, max_assets: &u32, dest: &MultiLocation) -> Weight;
    fn order_deposit_reserve_asset(
        assets: &MultiAssetFilter,
        max_assets: &u32,
        dest: &MultiLocation,
        effects: &Vec<Order<()>>,
    ) -> Weight;
    fn order_exchange_asset(give: &MultiAssetFilter, receive: &MultiAssets) -> Weight;
    fn order_initiate_reserve_withdraw(
        assets: &MultiAssetFilter,
        reserve: &MultiLocation,
        effects: &Vec<Order<()>>,
    ) -> Weight;
    fn order_initiate_teleport(assets: &MultiAssetFilter, dest: &MultiLocation, effects: &Vec<Order<()>>) -> Weight;
    fn order_query_holding(query_id: &u64, dest: &MultiLocation, assets: &MultiAssetFilter) -> Weight;
    fn order_buy_execution(
        fees: &MultiAsset,
        weight: &u64,
        debt: &u64,
        halt_on_error: &bool,
        orders: &Vec<Order<Call>>,
        instructions: &Vec<Xcm<Call>>,
    ) -> Weight;
    fn xcm_withdraw_asset(assets: &MultiAssets, effects: &Vec<Order<Call>>) -> Weight;
    fn xcm_reserve_asset_deposited(assets: &MultiAssets, effects: &Vec<Order<Call>>) -> Weight;
    fn xcm_receive_teleported_asset(assets: &MultiAssets, effects: &Vec<Order<Call>>) -> Weight;
    fn xcm_query_response(query_id: &u64, response: &Response) -> Weight;
    fn xcm_transfer_asset(assets: &MultiAssets, beneficiary: &MultiLocation) -> Weight;
    fn xcm_transfer_reserve_asset(assets: &MultiAssets, dest: &MultiLocation, effects: &Vec<Order<()>>) -> Weight;
    fn xcm_transact(
        origin_type: &OriginKind,
        require_weight_at_most: &u64,
        call: &DoubleEncoded<Call>,
    ) -> Weight;
    fn xcm_hrmp_new_channel_open_request(sender: &u32, max_message_size: &u32, max_capacity: &u32) -> Weight;
    fn xcm_hrmp_channel_accepted(recipient: &u32) -> Weight;
    fn xcm_hrmp_channel_closing(initiator: &u32, sender: &u32, recipient: &u32) -> Weight;
    fn xcm_relayed_from(who: &MultiLocation, message: &Box<Xcm<Call>>) -> Weight;
}

} // verus!
