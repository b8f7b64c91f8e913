//! Laws of tuples of senders and of clean-up schedulers, stated against the
//! members themselves.
//!
//! A tuple of senders answers as its first member chained with the tuple of the
//! other members, so each member is offered the message exactly when every
//! member before it has handed it on; a tuple of clean-up schedulers schedules
//! the clean-ups of its members one after the other, in member order.

use vstd::prelude::*;
use crate::cleanup::{ParaId, ParachainCleanup};
use crate::routing::{hand_on, lemma_single_chain, SendXcm};
use crate::xcm::{MultiLocation, Xcm, XcmResult};

verus! {

/// A chain of 3 senders answers as its first sender chained with the chain
/// of the other 2.
pub proof fn lemma_chain_of_3<T0: SendXcm, T1: SendXcm, T2: SendXcm>(destination: MultiLocation, message: Xcm<()>, result: XcmResult)
    ensures
        <(T0, T1, T2,) as SendXcm>::sends(destination, message, result) <==> <(T0, (T1, T2,)) as SendXcm>::sends(
            destination,
            message,
            result,
        ),
{
    assert forall|d: MultiLocation, m: Xcm<()>, r: XcmResult|
        <((T1, T2,),) as SendXcm>::sends(d, m, r) <==> #[trigger] <(T1, T2,) as SendXcm>::sends(d, m, r) by {
        lemma_single_chain::<(T1, T2,)>(d, m, r);
    }
    if <(T0, T1, T2,) as SendXcm>::sends(destination, message, result) {
        let a = choose|a: XcmResult|
            #[trigger] T0::sends(destination, message, a) && hand_on(a, |d, m, r| <(T1, T2,) as SendXcm>::sends(d, m, r), result);
        assert(hand_on(a, |d, m, r| <((T1, T2,),) as SendXcm>::sends(d, m, r), result));
    }
    if <(T0, (T1, T2,)) as SendXcm>::sends(destination, message, result) {
        let a = choose|a: XcmResult|
            #[trigger] T0::sends(destination, message, a) && hand_on(a, |d, m, r| <((T1, T2,),) as SendXcm>::sends(d, m, r), result);
        assert(hand_on(a, |d, m, r| <(T1, T2,) as SendXcm>::sends(d, m, r), result));
    }
}

/// A chain of 4 senders answers as its first sender chained with the chain
/// of the other 3.
pub proof fn lemma_chain_of_4<T0: SendXcm, T1: SendXcm, T2: SendXcm, T3: SendXcm>(destination: MultiLocation, message: Xcm<()>, result: XcmResult)
    ensures
        <(T0, T1, T2, T3,) as SendXcm>::sends(destination, message, result) <==> <(T0, (T1, T2, T3,)) as SendXcm>::sends(
            destination,
            message,
            result,
        ),
{
    assert forall|d: MultiLocation, m: Xcm<()>, r: XcmResult|
        <((T1, T2, T3,),) as SendXcm>::sends(d, m, r) <==> #[trigger] <(T1, T2, T3,) as SendXcm>::sends(d, m, r) by {
        lemma_single_chain::<(T1, T2, T3,)>(d, m, r);
    }
    if <(T0, T1, T2, T3,) as SendXcm>::sends(destination, message, result) {
        let a = choose|a: XcmResult|
            #[trigger] T0::sends(destination, message, a) && hand_on(a, |d, m, r| <(T1, T2, T3,) as SendXcm>::sends(d, m, r), result);
        assert(hand_on(a, |d, m, r| <((T1, T2, T3,),) as SendXcm>::sends(d, m, r), result));
    }
    if <(T0, (T1, T2, T3,)) as SendXcm>::sends(destination, message, result) {
        let a = choose|a: XcmResult|
            #[trigger] T0::sends(destination, message, a) && hand_on(a, |d, m, r| <((T1, T2, T3,),) as SendXcm>::sends(d, m, r), result);
        assert(hand_on(a, |d, m, r| <(T1, T2, T3,) as SendXcm>::sends(d, m, r), result));
    }
}

/// A chain of 5 senders answers as its first sender chained with the chain
/// of the other 4.
pub proof fn lemma_chain_of_5<T0: SendXcm, T1: SendXcm, T2: SendXcm, T3: SendXcm, T4: SendXcm>(destination: MultiLocation, message: Xcm<()>, result: XcmResult)
    ensures
        <(T0, T1, T2, T3, T4,) as SendXcm>::sends(destination, message, result) <==> <(T0, (T1, T2, T3, T4,)) as SendXcm>::sends(
            destination,
            message,
            result,
        ),
{
    assert forall|d: MultiLocation, m: Xcm<()>, r: XcmResult|
        <((T1, T2, T3, T4,),) as SendXcm>::sends(d, m, r) <==> #[trigger] <(T1, T2, T3, T4,) as SendXcm>::sends(d, m, r) by {
        lemma_single_chain::<(T1, T2, T3, T4,)>(d, m, r);
    }
    if <(T0, T1, T2, T3, T4,) as SendXcm>::sends(destination, message, result) {
        let a = choose|a: XcmResult|
            #[trigger] T0::sends(destination, message, a) && hand_on(a, |d, m, r| <(T1, T2, T3, T4,) as SendXcm>::sends(d, m, r), result);
        assert(hand_on(a, |d, m, r| <((T1, T2, T3, T4,),) as SendXcm>::sends(d, m, r), result));
    }
    if <(T0, (T1, T2, T3, T4,)) as SendXcm>::sends(destination, message, result) {
        let a = choose|a: XcmResult|
            #[trigger] T0::sends(destination, message, a) && hand_on(a, |d, m, r| <((T1, T2, T3, T4,),) as SendXcm>::sends(d, m, r), result);
        assert(hand_on(a, |d, m, r| <(T1, T2, T3, T4,) as SendXcm>::sends(d, m, r), result));
    }
}

/// A chain of 6 senders answers as its first sender chained with the chain
/// of the other 5.
pub proof fn lemma_chain_of_6<T0: SendXcm, T1: SendXcm, T2: SendXcm, T3: SendXcm, T4: SendXcm, T5: SendXcm>(destination: MultiLocation, message: Xcm<()>, result: XcmResult)
    ensures
        <(T0, T1, T2, T3, T4, T5,) as SendXcm>::sends(destination, message, result) <==> <(T0, (T1, T2, T3, T4, T5,)) as SendXcm>::sends(
            destination,
            message,
            result,
        ),
{
    assert forall|d: MultiLocation, m: Xcm<()>, r: XcmResult|
        <((T1, T2, T3, T4, T5,),) as SendXcm>::sends(d, m, r) <==> #[trigger] <(T1, T2, T3, T4, T5,) as SendXcm>::sends(d, m, r) by {
        lemma_single_chain::<(T1, T2, T3, T4, T5,)>(d, m, r);
    }
    if <(T0, T1, T2, T3, T4, T5,) as SendXcm>::sends(destination, message, result) {
        let a = choose|a: XcmResult|
            #[trigger] T0::sends(destination, message, a) && hand_on(a, |d, m, r| <(T1, T2, T3, T4, T5,) as SendXcm>::sends(d, m, r), result);
        assert(hand_on(a, |d, m, r| <((T1, T2, T3, T4, T5,),) as SendXcm>::sends(d, m, r), result));
    }
    if <(T0, (T1, T2, T3, T4, T5,)) as SendXcm>::sends(destination, message, result) {
        let a = choose|a: XcmResult|
            #[trigger] T0::sends(destination, message, a) && hand_on(a, |d, m, r| <((T1, T2, T3, T4, T5,),) as SendXcm>::sends(d, m, r), result);
        assert(hand_on(a, |d, m, r| <(T1, T2, T3, T4, T5,) as SendXcm>::sends(d, m, r), result));
    }
}

/// A chain of 7 senders answers as its first sender chained with the chain
/// of the other 6.
pub proof fn lemma_chain_of_7<T0: SendXcm, T1: SendXcm, T2: SendXcm, T3: SendXcm, T4: SendXcm, T5: SendXcm, T6: SendXcm>(destination: MultiLocation, message: Xcm<()>, result: XcmResult)
    ensures
        <(T0, T1, T2, T3, T4, T5, T6,) as SendXcm>::sends(destination, message, result) <==> <(T0, (T1, T2, T3, T4, T5, T6,)) as SendXcm>::sends(
            destination,
            message,
            result,
        ),
{
    assert forall|d: MultiLocation, m: Xcm<()>, r: XcmResult|
        <((T1, T2, T3, T4, T5, T6,),) as SendXcm>::sends(d, m, r) <==> #[trigger] <(T1, T2, T3, T4, T5, T6,) as SendXcm>::sends(d, m, r) by {
        lemma_single_chain::<(T1, T2, T3, T4, T5, T6,)>(d, m, r);
    }
    if <(T0, T1, T2, T3, T4, T5, T6,) as SendXcm>::sends(destination, message, result) {
        let a = choose|a: XcmResult|
            #[trigger] T0::sends(destination, message, a) && hand_on(a, |d, m, r| <(T1, T2, T3, T4, T5, T6,) as SendXcm>::sends(d, m, r), result);
        assert(hand_on(a, |d, m, r| <((T1, T2, T3, T4, T5, T6,),) as SendXcm>::sends(d, m, r), result));
    }
    if <(T0, (T1, T2, T3, T4, T5, T6,)) as SendXcm>::sends(destination, message, result) {
        let a = choose|a: XcmResult|
            #[trigger] T0::sends(destination, message, a) && hand_on(a, |d, m, r| <((T1, T2, T3, T4, T5, T6,),) as SendXcm>::sends(d, m, r), result);
        assert(hand_on(a, |d, m, r| <(T1, T2, T3, T4, T5, T6,) as SendXcm>::sends(d, m, r), result));
    }
}

/// A chain of 8 senders answers as its first sender chained with the chain
/// of the other 7.
pub proof fn lemma_chain_of_8<T0: SendXcm, T1: SendXcm, T2: SendXcm, T3: SendXcm, T4: SendXcm, T5: SendXcm, T6: SendXcm, T7: SendXcm>(destination: MultiLocation, message: Xcm<()>, result: XcmResult)
    ensures
        <(T0, T1, T2, T3, T4, T5, T6, T7,) as SendXcm>::sends(destination, message, result) <==> <(T0, (T1, T2, T3, T4, T5, T6, T7,)) as SendXcm>::sends(
            destination,
            message,
            result,
        ),
{
    assert forall|d: MultiLocation, m: Xcm<()>, r: XcmResult|
        <((T1, T2, T3, T4, T5, T6, T7,),) as SendXcm>::sends(d, m, r) <==> #[trigger] <(T1, T2, T3, T4, T5, T6, T7,) as SendXcm>::sends(d, m, r) by {
        lemma_single_chain::<(T1, T2, T3, T4, T5, T6, T7,)>(d, m, r);
    }
    if <(T0, T1, T2, T3, T4, T5, T6, T7,) as SendXcm>::sends(destination, message, result) {
        let a = choose|a: XcmResult|
            #[trigger] T0::sends(destination, message, a) && hand_on(a, |d, m, r| <(T1, T2, T3, T4, T5, T6, T7,) as SendXcm>::sends(d, m, r), result);
        assert(hand_on(a, |d, m, r| <((T1, T2, T3, T4, T5, T6, T7,),) as SendXcm>::sends(d, m, r), result));
    }
    if <(T0, (T1, T2, T3, T4, T5, T6, T7,)) as SendXcm>::sends(destination, message, result) {
        let a = choose|a: XcmResult|
            #[trigger] T0::sends(destination, message, a) && hand_on(a, |d, m, r| <((T1, T2, T3, T4, T5, T6, T7,),) as SendXcm>::sends(d, m, r), result);
        assert(hand_on(a, |d, m, r| <(T1, T2, T3, T4, T5, T6, T7,) as SendXcm>::sends(d, m, r), result));
    }
}

/// A chain of 9 senders answers as its first sender chained with the chain
/// of the other 8.
pub proof fn lemma_chain_of_9<T0: SendXcm, T1: SendXcm, T2: SendXcm, T3: SendXcm, T4: SendXcm, T5: SendXcm, T6: SendXcm, T7: SendXcm, T8: SendXcm>(destination: MultiLocation, message: Xcm<()>, result: XcmResult)
    ensures
        <(T0, T1, T2, T3, T4, T5, T6, T7, T8,) as SendXcm>::sends(destination, message, result) <==> <(T0, (T1, T2, T3, T4, T5, T6, T7, T8,)) as SendXcm>::sends(
            destination,
            message,
            result,
        ),
{
    assert forall|d: MultiLocation, m: Xcm<()>, r: XcmResult|
        <((T1, T2, T3, T4, T5, T6, T7, T8,),) as SendXcm>::sends(d, m, r) <==> #[trigger] <(T1, T2, T3, T4, T5, T6, T7, T8,) as SendXcm>::sends(d, m, r) by {
        lemma_single_chain::<(T1, T2, T3, T4, T5, T6, T7, T8,)>(d, m, r);
    }
    if <(T0, T1, T2, T3, T4, T5, T6, T7, T8,) as SendXcm>::sends(destination, message, result) {
        let a = choose|a: XcmResult|
            #[trigger] T0::sends(destination, message, a) && hand_on(a, |d, m, r| <(T1, T2, T3, T4, T5, T6, T7, T8,) as SendXcm>::sends(d, m, r), result);
        assert(hand_on(a, |d, m, r| <((T1, T2, T3, T4, T5, T6, T7, T8,),) as SendXcm>::sends(d, m, r), result));
    }
    if <(T0, (T1, T2, T3, T4, T5, T6, T7, T8,)) as SendXcm>::sends(destination, message, result) {
        let a = choose|a: XcmResult|
            #[trigger] T0::sends(destination, message, a) && hand_on(a, |d, m, r| <((T1, T2, T3, T4, T5, T6, T7, T8,),) as SendXcm>::sends(d, m, r), result);
        assert(hand_on(a, |d, m, r| <(T1, T2, T3, T4, T5, T6, T7, T8,) as SendXcm>::sends(d, m, r), result));
    }
}

/// A chain of 10 senders answers as its first sender chained with the chain
/// of the other 9.
pub proof fn lemma_chain_of_10<T0: SendXcm, T1: SendXcm, T2: SendXcm, T3: SendXcm, T4: SendXcm, T5: SendXcm, T6: SendXcm, T7: SendXcm, T8: SendXcm, T9: SendXcm>(destination: MultiLocation, message: Xcm<()>, result: XcmResult)
    ensures
        <(T0, T1, T2, T3, T4, T5, T6, T7, T8, T9,) as SendXcm>::sends(destination, message, result) <==> <(T0, (T1, T2, T3, T4, T5, T6, T7, T8, T9,)) as SendXcm>::sends(
            destination,
            message,
            result,
        ),
{
    assert forall|d: MultiLocation, m: Xcm<()>, r: XcmResult|
        <((T1, T2, T3, T4, T5, T6, T7, T8, T9,),) as SendXcm>::sends(d, m, r) <==> #[trigger] <(T1, T2, T3, T4, T5, T6, T7, T8, T9,) as SendXcm>::sends(d, m, r) by {
        lemma_single_chain::<(T1, T2, T3, T4, T5, T6, T7, T8, T9,)>(d, m, r);
    }
    if <(T0, T1, T2, T3, T4, T5, T6, T7, T8, T9,) as SendXcm>::sends(destination, message, result) {
        let a = choose|a: XcmResult|
            #[trigger] T0::sends(destination, message, a) && hand_on(a, |d, m, r| <(T1, T2, T3, T4, T5, T6, T7, T8, T9,) as SendXcm>::sends(d, m, r), result);
        assert(hand_on(a, |d, m, r| <((T1, T2, T3, T4, T5, T6, T7, T8, T9,),) as SendXcm>::sends(d, m, r), result));
    }
    if <(T0, (T1, T2, T3, T4, T5, T6, T7, T8, T9,)) as SendXcm>::sends(destination, message, result) {
        let a = choose|a: XcmResult|
            #[trigger] T0::sends(destination, message, a) && hand_on(a, |d, m, r| <((T1, T2, T3, T4, T5, T6, T7, T8, T9,),) as SendXcm>::sends(d, m, r), result);
        assert(hand_on(a, |d, m, r| <(T1, T2, T3, T4, T5, T6, T7, T8, T9,) as SendXcm>::sends(d, m, r), result));
    }
}

/// A chain of 11 senders answers as its first sender chained with the chain
/// of the other 10.
pub proof fn lemma_chain_of_11<T0: SendXcm, T1: SendXcm, T2: SendXcm, T3: SendXcm, T4: SendXcm, T5: SendXcm, T6: SendXcm, T7: SendXcm, T8: SendXcm, T9: SendXcm, T10: SendXcm>(destination: MultiLocation, message: Xcm<()>, result: XcmResult)
    ensures
        <(T0, T1, T2, T3, T4, T5, T6, T7, T8, T9, T10,) as SendXcm>::sends(destination, message, result) <==> <(T0, (T1, T2, T3, T4, T5, T6, T7, T8, T9, T10,)) as SendXcm>::sends(
            destination,
            message,
            result,
        ),
{
    assert forall|d: MultiLocation, m: Xcm<()>, r: XcmResult|
        <((T1, T2, T3, T4, T5, T6, T7, T8, T9, T10,),) as SendXcm>::sends(d, m, r) <==> #[trigger] <(T1, T2, T3, T4, T5, T6, T7, T8, T9, T10,) as SendXcm>::sends(d, m, r) by {
        lemma_single_chain::<(T1, T2, T3, T4, T5, T6, T7, T8, T9, T10,)>(d, m, r);
    }
    if <(T0, T1, T2, T3, T4, T5, T6, T7, T8, T9, T10,) as SendXcm>::sends(destination, message, result) {
        let a = choose|a: XcmResult|
            #[trigger] T0::sends(destination, message, a) && hand_on(a, |d, m, r| <(T1, T2, T3, T4, T5, T6, T7, T8, T9, T10,) as SendXcm>::sends(d, m, r), result);
        assert(hand_on(a, |d, m, r| <((T1, T2, T3, T4, T5, T6, T7, T8, T9, T10,),) as SendXcm>::sends(d, m, r), result));
    }
    if <(T0, (T1, T2, T3, T4, T5, T6, T7, T8, T9, T10,)) as SendXcm>::sends(destination, message, result) {
        let a = choose|a: XcmResult|
            #[trigger] T0::sends(destination, message, a) && hand_on(a, |d, m, r| <((T1, T2, T3, T4, T5, T6, T7, T8, T9, T10,),) as SendXcm>::sends(d, m, r), result);
        assert(hand_on(a, |d, m, r| <(T1, T2, T3, T4, T5, T6, T7, T8, T9, T10,) as SendXcm>::sends(d, m, r), result));
    }
}

/// A chain of 12 senders answers as its first sender chained with the chain
/// of the other 11.
pub proof fn lemma_chain_of_12<T0: SendXcm, T1: SendXcm, T2: SendXcm, T3: SendXcm, T4: SendXcm, T5: SendXcm, T6: SendXcm, T7: SendXcm, T8: SendXcm, T9: SendXcm, T10: SendXcm, T11: SendXcm>(destination: MultiLocation, message: Xcm<()>, result: XcmResult)
    ensures
        <(T0, T1, T2, T3, T4, T5, T6, T7, T8, T9, T10, T11,) as SendXcm>::sends(destination, message, result) <==> <(T0, (T1, T2, T3, T4, T5, T6, T7, T8, T9, T10, T11,)) as SendXcm>::sends(
            destination,
            message,
            result,
        ),
{
    assert forall|d: MultiLocation, m: Xcm<()>, r: XcmResult|
        <((T1, T2, T3, T4, T5, T6, T7, T8, T9, T10, T11,),) as SendXcm>::sends(d, m, r) <==> #[trigger] <(T1, T2, T3, T4, T5, T6, T7, T8, T9, T10, T11,) as SendXcm>::sends(d, m, r) by {
        lemma_single_chain::<(T1, T2, T3, T4, T5, T6, T7, T8, T9, T10, T11,)>(d, m, r);
    }
    if <(T0, T1, T2, T3, T4, T5, T6, T7, T8, T9, T10, T11,) as SendXcm>::sends(destination, message, result) {
        let a = choose|a: XcmResult|
            #[trigger] T0::sends(destination, message, a) && hand_on(a, |d, m, r| <(T1, T2, T3, T4, T5, T6, T7, T8, T9, T10, T11,) as SendXcm>::sends(d, m, r), result);
        assert(hand_on(a, |d, m, r| <((T1, T2, T3, T4, T5, T6, T7, T8, T9, T10, T11,),) as SendXcm>::sends(d, m, r), result));
    }
    if <(T0, (T1, T2, T3, T4, T5, T6, T7, T8, T9, T10, T11,)) as SendXcm>::sends(destination, message, result) {
        let a = choose|a: XcmResult|
            #[trigger] T0::sends(destination, message, a) && hand_on(a, |d, m, r| <((T1, T2, T3, T4, T5, T6, T7, T8, T9, T10, T11,),) as SendXcm>::sends(d, m, r), result);
        assert(hand_on(a, |d, m, r| <(T1, T2, T3, T4, T5, T6, T7, T8, T9, T10, T11,) as SendXcm>::sends(d, m, r), result));
    }
}

/// A chain of 13 senders answers as its first sender chained with the chain
/// of the other 12.
pub proof fn lemma_chain_of_13<T0: SendXcm, T1: SendXcm, T2: SendXcm, T3: SendXcm, T4: SendXcm, T5: SendXcm, T6: SendXcm, T7: SendXcm, T8: SendXcm, T9: SendXcm, T10: SendXcm, T11: SendXcm, T12: SendXcm>(destination: MultiLocation, message: Xcm<()>, result: XcmResult)
    ensures
        <(T0, T1, T2, T3, T4, T5, T6, T7, T8, T9, T10, T11, T12,) as SendXcm>::sends(destination, message, result) <==> <(T0, (T1, T2, T3, T4, T5, T6, T7, T8, T9, T10, T11, T12,)) as SendXcm>::sends(
            destination,
            message,
            result,
        ),
{
    assert forall|d: MultiLocation, m: Xcm<()>, r: XcmResult|
        <((T1, T2, T3, T4, T5, T6, T7, T8, T9, T10, T11, T12,),) as SendXcm>::sends(d, m, r) <==> #[trigger] <(T1, T2, T3, T4, T5, T6, T7, T8, T9, T10, T11, T12,) as SendXcm>::sends(d, m, r) by {
        lemma_single_chain::<(T1, T2, T3, T4, T5, T6, T7, T8, T9, T10, T11, T12,)>(d, m, r);
    }
    if <(T0, T1, T2, T3, T4, T5, T6, T7, T8, T9, T10, T11, T12,) as SendXcm>::sends(destination, message, result) {
        let a = choose|a: XcmResult|
            #[trigger] T0::sends(destination, message, a) && hand_on(a, |d, m, r| <(T1, T2, T3, T4, T5, T6, T7, T8, T9, T10, T11, T12,) as SendXcm>::sends(d, m, r), result);
        assert(hand_on(a, |d, m, r| <((T1, T2, T3, T4, T5, T6, T7, T8, T9, T10, T11, T12,),) as SendXcm>::sends(d, m, r), result));
    }
    if <(T0, (T1, T2, T3, T4, T5, T6, T7, T8, T9, T10, T11, T12,)) as SendXcm>::sends(destination, message, result) {
        let a = choose|a: XcmResult|
            #[trigger] T0::sends(destination, message, a) && hand_on(a, |d, m, r| <((T1, T2, T3, T4, T5, T6, T7, T8, T9, T10, T11, T12,),) as SendXcm>::sends(d, m, r), result);
        assert(hand_on(a, |d, m, r| <(T1, T2, T3, T4, T5, T6, T7, T8, T9, T10, T11, T12,) as SendXcm>::sends(d, m, r), result));
    }
}

/// A chain of 14 senders answers as its first sender chained with the chain
/// of the other 13.
pub proof fn lemma_chain_of_14<T0: SendXcm, T1: SendXcm, T2: SendXcm, T3: SendXcm, T4: SendXcm, T5: SendXcm, T6: SendXcm, T7: SendXcm, T8: SendXcm, T9: SendXcm, T10: SendXcm, T11: SendXcm, T12: SendXcm, T13: SendXcm>(destination: MultiLocation, message: Xcm<()>, result: XcmResult)
    ensures
        <(T0, T1, T2, T3, T4, T5, T6, T7, T8, T9, T10, T11, T12, T13,) as SendXcm>::sends(destination, message, result) <==> <(T0, (T1, T2, T3, T4, T5, T6, T7, T8, T9, T10, T11, T12, T13,)) as SendXcm>::sends(
            destination,
            message,
            result,
        ),
{
    assert forall|d: MultiLocation, m: Xcm<()>, r: XcmResult|
        <((T1, T2, T3, T4, T5, T6, T7, T8, T9, T10, T11, T12, T13,),) as SendXcm>::sends(d, m, r) <==> #[trigger] <(T1, T2, T3, T4, T5, T6, T7, T8, T9, T10, T11, T12, T13,) as SendXcm>::sends(d, m, r) by {
        lemma_single_chain::<(T1, T2, T3, T4, T5, T6, T7, T8, T9, T10, T11, T12, T13,)>(d, m, r);
    }
    if <(T0, T1, T2, T3, T4, T5, T6, T7, T8, T9, T10, T11, T12, T13,) as SendXcm>::sends(destination, message, result) {
        let a = choose|a: XcmResult|
            #[trigger] T0::sends(destination, message, a) && hand_on(a, |d, m, r| <(T1, T2, T3, T4, T5, T6, T7, T8, T9, T10, T11, T12, T13,) as SendXcm>::sends(d, m, r), result);
        assert(hand_on(a, |d, m, r| <((T1, T2, T3, T4, T5, T6, T7, T8, T9, T10, T11, T12, T13,),) as SendXcm>::sends(d, m, r), result));
    }
    if <(T0, (T1, T2, T3, T4, T5, T6, T7, T8, T9, T10, T11, T12, T13,)) as SendXcm>::sends(destination, message, result) {
        let a = choose|a: XcmResult|
            #[trigger] T0::sends(destination, message, a) && hand_on(a, |d, m, r| <((T1, T2, T3, T4, T5, T6, T7, T8, T9, T10, T11, T12, T13,),) as SendXcm>::sends(d, m, r), result);
        assert(hand_on(a, |d, m, r| <(T1, T2, T3, T4, T5, T6, T7, T8, T9, T10, T11, T12, T13,) as SendXcm>::sends(d, m, r), result));
    }
}

/// A chain of 15 senders answers as its first sender chained with the chain
/// of the other 14.
pub proof fn lemma_chain_of_15<T0: SendXcm, T1: SendXcm, T2: SendXcm, T3: SendXcm, T4: SendXcm, T5: SendXcm, T6: SendXcm, T7: SendXcm, T8: SendXcm, T9: SendXcm, T10: SendXcm, T11: SendXcm, T12: SendXcm, T13: SendXcm, T14: SendXcm>(destination: MultiLocation, message: Xcm<()>, result: XcmResult)
    ensures
        <(T0, T1, T2, T3, T4, T5, T6, T7, T8, T9, T10, T11, T12, T13, T14,) as SendXcm>::sends(destination, message, result) <==> <(T0, (T1, T2, T3, T4, T5, T6, T7, T8, T9, T10, T11, T12, T13, T14,)) as SendXcm>::sends(
            destination,
            message,
            result,
        ),
{
    assert forall|d: MultiLocation, m: Xcm<()>, r: XcmResult|
        <((T1, T2, T3, T4, T5, T6, T7, T8, T9, T10, T11, T12, T13, T14,),) as SendXcm>::sends(d, m, r) <==> #[trigger] <(T1, T2, T3, T4, T5, T6, T7, T8, T9, T10, T11, T12, T13, T14,) as SendXcm>::sends(d, m, r) by {
        lemma_single_chain::<(T1, T2, T3, T4, T5, T6, T7, T8, T9, T10, T11, T12, T13, T14,)>(d, m, r);
    }
    if <(T0, T1, T2, T3, T4, T5, T6, T7, T8, T9, T10, T11, T12, T13, T14,) as SendXcm>::sends(destination, message, result) {
        let a = choose|a: XcmResult|
            #[trigger] T0::sends(destination, message, a) && hand_on(a, |d, m, r| <(T1, T2, T3, T4, T5, T6, T7, T8, T9, T10, T11, T12, T13, T14,) as SendXcm>::sends(d, m, r), result);
        assert(hand_on(a, |d, m, r| <((T1, T2, T3, T4, T5, T6, T7, T8, T9, T10, T11, T12, T13, T14,),) as SendXcm>::sends(d, m, r), result));
    }
    if <(T0, (T1, T2, T3, T4, T5, T6, T7, T8, T9, T10, T11, T12, T13, T14,)) as SendXcm>::sends(destination, message, result) {
        let a = choose|a: XcmResult|
            #[trigger] T0::sends(destination, message, a) && hand_on(a, |d, m, r| <((T1, T2, T3, T4, T5, T6, T7, T8, T9, T10, T11, T12, T13, T14,),) as SendXcm>::sends(d, m, r), result);
        assert(hand_on(a, |d, m, r| <(T1, T2, T3, T4, T5, T6, T7, T8, T9, T10, T11, T12, T13, T14,) as SendXcm>::sends(d, m, r), result));
    }
}

/// A chain of 16 senders answers as its first sender chained with the chain
/// of the other 15.
pub proof fn lemma_chain_of_16<T0: SendXcm, T1: SendXcm, T2: SendXcm, T3: SendXcm, T4: SendXcm, T5: SendXcm, T6: SendXcm, T7: SendXcm, T8: SendXcm, T9: SendXcm, T10: SendXcm, T11: SendXcm, T12: SendXcm, T13: SendXcm, T14: SendXcm, T15: SendXcm>(destination: MultiLocation, message: Xcm<()>, result: XcmResult)
    ensures
        <(T0, T1, T2, T3, T4, T5, T6, T7, T8, T9, T10, T11, T12, T13, T14, T15,) as SendXcm>::sends(destination, message, result) <==> <(T0, (T1, T2, T3, T4, T5, T6, T7, T8, T9, T10, T11, T12, T13, T14, T15,)) as SendXcm>::sends(
            destination,
            message,
            result,
        ),
{
    assert forall|d: MultiLocation, m: Xcm<()>, r: XcmResult|
        <((T1, T2, T3, T4, T5, T6, T7, T8, T9, T10, T11, T12, T13, T14, T15,),) as SendXcm>::sends(d, m, r) <==> #[trigger] <(T1, T2, T3, T4, T5, T6, T7, T8, T9, T10, T11, T12, T13, T14, T15,) as SendXcm>::sends(d, m, r) by {
        lemma_single_chain::<(T1, T2, T3, T4, T5, T6, T7, T8, T9, T10, T11, T12, T13, T14, T15,)>(d, m, r);
    }
    if <(T0, T1, T2, T3, T4, T5, T6, T7, T8, T9, T10, T11, T12, T13, T14, T15,) as SendXcm>::sends(destination, message, result) {
        let a = choose|a: XcmResult|
            #[trigger] T0::sends(destination, message, a) && hand_on(a, |d, m, r| <(T1, T2, T3, T4, T5, T6, T7, T8, T9, T10, T11, T12, T13, T14, T15,) as SendXcm>::sends(d, m, r), result);
        assert(hand_on(a, |d, m, r| <((T1, T2, T3, T4, T5, T6, T7, T8, T9, T10, T11, T12, T13, T14, T15,),) as SendXcm>::sends(d, m, r), result));
    }
    if <(T0, (T1, T2, T3, T4, T5, T6, T7, T8, T9, T10, T11, T12, T13, T14, T15,)) as SendXcm>::sends(destination, message, result) {
        let a = choose|a: XcmResult|
            #[trigger] T0::sends(destination, message, a) && hand_on(a, |d, m, r| <((T1, T2, T3, T4, T5, T6, T7, T8, T9, T10, T11, T12, T13, T14, T15,),) as SendXcm>::sends(d, m, r), result);
        assert(hand_on(a, |d, m, r| <(T1, T2, T3, T4, T5, T6, T7, T8, T9, T10, T11, T12, T13, T14, T15,) as SendXcm>::sends(d, m, r), result));
    }
}

/// A chain of 17 senders answers as its first sender chained with the chain
/// of the other 16.
pub proof fn lemma_chain_of_17<T0: SendXcm, T1: SendXcm, T2: SendXcm, T3: SendXcm, T4: SendXcm, T5: SendXcm, T6: SendXcm, T7: SendXcm, T8: SendXcm, T9: SendXcm, T10: SendXcm, T11: SendXcm, T12: SendXcm, T13: SendXcm, T14: SendXcm, T15: SendXcm, T16: SendXcm>(destination: MultiLocation, message: Xcm<()>, result: XcmResult)
    ensures
        <(T0, T1, T2, T3, T4, T5, T6, T7, T8, T9, T10, T11, T12, T13, T14, T15, T16,) as SendXcm>::sends(destination, message, result) <==> <(T0, (T1, T2, T3, T4, T5, T6, T7, T8, T9, T10, T11, T12, T13, T14, T15, T16,)) as SendXcm>::sends(
            destination,
            message,
            result,
        ),
{
    assert forall|d: MultiLocation, m: Xcm<()>, r: XcmResult|
        <((T1, T2, T3, T4, T5, T6, T7, T8, T9, T10, T11, T12, T13, T14, T15, T16,),) as SendXcm>::sends(d, m, r) <==> #[trigger] <(T1, T2, T3, T4, T5, T6, T7, T8, T9, T10, T11, T12, T13, T14, T15, T16,) as SendXcm>::sends(d, m, r) by {
        lemma_single_chain::<(T1, T2, T3, T4, T5, T6, T7, T8, T9, T10, T11, T12, T13, T14, T15, T16,)>(d, m, r);
    }
    if <(T0, T1, T2, T3, T4, T5, T6, T7, T8, T9, T10, T11, T12, T13, T14, T15, T16,) as SendXcm>::sends(destination, message, result) {
        let a = choose|a: XcmResult|
            #[trigger] T0::sends(destination, message, a) && hand_on(a, |d, m, r| <(T1, T2, T3, T4, T5, T6, T7, T8, T9, T10, T11, T12, T13, T14, T15, T16,) as SendXcm>::sends(d, m, r), result);
        assert(hand_on(a, |d, m, r| <((T1, T2, T3, T4, T5, T6, T7, T8, T9, T10, T11, T12, T13, T14, T15, T16,),) as SendXcm>::sends(d, m, r), result));
    }
    if <(T0, (T1, T2, T3, T4, T5, T6, T7, T8, T9, T10, T11, T12, T13, T14, T15, T16,)) as SendXcm>::sends(destination, message, result) {
        let a = choose|a: XcmResult|
            #[trigger] T0::sends(destination, message, a) && hand_on(a, |d, m, r| <((T1, T2, T3, T4, T5, T6, T7, T8, T9, T10, T11, T12, T13, T14, T15, T16,),) as SendXcm>::sends(d, m, r), result);
        assert(hand_on(a, |d, m, r| <(T1, T2, T3, T4, T5, T6, T7, T8, T9, T10, T11, T12, T13, T14, T15, T16,) as SendXcm>::sends(d, m, r), result));
    }
}

/// A chain of 18 senders answers as its first sender chained with the chain
/// of the other 17.
pub proof fn lemma_chain_of_18<T0: SendXcm, T1: SendXcm, T2: SendXcm, T3: SendXcm, T4: SendXcm, T5: SendXcm, T6: SendXcm, T7: SendXcm, T8: SendXcm, T9: SendXcm, T10: SendXcm, T11: SendXcm, T12: SendXcm, T13: SendXcm, T14: SendXcm, T15: SendXcm, T16: SendXcm, T17: SendXcm>(destination: MultiLocation, message: Xcm<()>, result: XcmResult)
    ensures
        <(T0, T1, T2, T3, T4, T5, T6, T7, T8, T9, T10, T11, T12, T13, T14, T15, T16, T17,) as SendXcm>::sends(destination, message, result) <==> <(T0, (T1, T2, T3, T4, T5, T6, T7, T8, T9, T10, T11, T12, T13, T14, T15, T16, T17,)) as SendXcm>::sends(
            destination,
            message,
            result,
        ),
{
    assert forall|d: MultiLocation, m: Xcm<()>, r: XcmResult|
        <((T1, T2, T3, T4, T5, T6, T7, T8, T9, T10, T11, T12, T13, T14, T15, T16, T17,),) as SendXcm>::sends(d, m, r) <==> #[trigger] <(T1, T2, T3, T4, T5, T6, T7, T8, T9, T10, T11, T12, T13, T14, T15, T16, T17,) as SendXcm>::sends(d, m, r) by {
        lemma_single_chain::<(T1, T2, T3, T4, T5, T6, T7, T8, T9, T10, T11, T12, T13, T14, T15, T16, T17,)>(d, m, r);
    }
    if <(T0, T1, T2, T3, T4, T5, T6, T7, T8, T9, T10, T11, T12, T13, T14, T15, T16, T17,) as SendXcm>::sends(destination, message, result) {
        let a = choose|a: XcmResult|
            #[trigger] T0::sends(destination, message, a) && hand_on(a, |d, m, r| <(T1, T2, T3, T4, T5, T6, T7, T8, T9, T10, T11, T12, T13, T14, T15, T16, T17,) as SendXcm>::sends(d, m, r), result);
        assert(hand_on(a, |d, m, r| <((T1, T2, T3, T4, T5, T6, T7, T8, T9, T10, T11, T12, T13, T14, T15, T16, T17,),) as SendXcm>::sends(d, m, r), result));
    }
    if <(T0, (T1, T2, T3, T4, T5, T6, T7, T8, T9, T10, T11, T12, T13, T14, T15, T16, T17,)) as SendXcm>::sends(destination, message, result) {
        let a = choose|a: XcmResult|
            #[trigger] T0::sends(destination, message, a) && hand_on(a, |d, m, r| <((T1, T2, T3, T4, T5, T6, T7, T8, T9, T10, T11, T12, T13, T14, T15, T16, T17,),) as SendXcm>::sends(d, m, r), result);
        assert(hand_on(a, |d, m, r| <(T1, T2, T3, T4, T5, T6, T7, T8, T9, T10, T11, T12, T13, T14, T15, T16, T17,) as SendXcm>::sends(d, m, r), result));
    }
}

/// A chain of 19 senders answers as its first sender chained with the chain
/// of the other 18.
pub proof fn lemma_chain_of_19<T0: SendXcm, T1: SendXcm, T2: SendXcm, T3: SendXcm, T4: SendXcm, T5: SendXcm, T6: SendXcm, T7: SendXcm, T8: SendXcm, T9: SendXcm, T10: SendXcm, T11: SendXcm, T12: SendXcm, T13: SendXcm, T14: SendXcm, T15: SendXcm, T16: SendXcm, T17: SendXcm, T18: SendXcm>(destination: MultiLocation, message: Xcm<()>, result: XcmResult)
    ensures
        <(T0, T1, T2, T3, T4, T5, T6, T7, T8, T9, T10, T11, T12, T13, T14, T15, T16, T17, T18,) as SendXcm>::sends(destination, message, result) <==> <(T0, (T1, T2, T3, T4, T5, T6, T7, T8, T9, T10, T11, T12, T13, T14, T15, T16, T17, T18,)) as SendXcm>::sends(
            destination,
            message,
            result,
        ),
{
    assert forall|d: MultiLocation, m: Xcm<()>, r: XcmResult|
        <((T1, T2, T3, T4, T5, T6, T7, T8, T9, T10, T11, T12, T13, T14, T15, T16, T17, T18,),) as SendXcm>::sends(d, m, r) <==> #[trigger] <(T1, T2, T3, T4, T5, T6, T7, T8, T9, T10, T11, T12, T13, T14, T15, T16, T17, T18,) as SendXcm>::sends(d, m, r) by {
        lemma_single_chain::<(T1, T2, T3, T4, T5, T6, T7, T8, T9, T10, T11, T12, T13, T14, T15, T16, T17, T18,)>(d, m, r);
    }
    if <(T0, T1, T2, T3, T4, T5, T6, T7, T8, T9, T10, T11, T12, T13, T14, T15, T16, T17, T18,) as SendXcm>::sends(destination, message, result) {
        let a = choose|a: XcmResult|
            #[trigger] T0::sends(destination, message, a) && hand_on(a, |d, m, r| <(T1, T2, T3, T4, T5, T6, T7, T8, T9, T10, T11, T12, T13, T14, T15, T16, T17, T18,) as SendXcm>::sends(d, m, r), result);
        assert(hand_on(a, |d, m, r| <((T1, T2, T3, T4, T5, T6, T7, T8, T9, T10, T11, T12, T13, T14, T15, T16, T17, T18,),) as SendXcm>::sends(d, m, r), result));
    }
    if <(T0, (T1, T2, T3, T4, T5, T6, T7, T8, T9, T10, T11, T12, T13, T14, T15, T16, T17, T18,)) as SendXcm>::sends(destination, message, result) {
        let a = choose|a: XcmResult|
            #[trigger] T0::sends(destination, message, a) && hand_on(a, |d, m, r| <((T1, T2, T3, T4, T5, T6, T7, T8, T9, T10, T11, T12, T13, T14, T15, T16, T17, T18,),) as SendXcm>::sends(d, m, r), result);
        assert(hand_on(a, |d, m, r| <(T1, T2, T3, T4, T5, T6, T7, T8, T9, T10, T11, T12, T13, T14, T15, T16, T17, T18,) as SendXcm>::sends(d, m, r), result));
    }
}

/// A chain of 20 senders answers as its first sender chained with the chain
/// of the other 19.
pub proof fn lemma_chain_of_20<T0: SendXcm, T1: SendXcm, T2: SendXcm, T3: SendXcm, T4: SendXcm, T5: SendXcm, T6: SendXcm, T7: SendXcm, T8: SendXcm, T9: SendXcm, T10: SendXcm, T11: SendXcm, T12: SendXcm, T13: SendXcm, T14: SendXcm, T15: SendXcm, T16: SendXcm, T17: SendXcm, T18: SendXcm, T19: SendXcm>(destination: MultiLocation, message: Xcm<()>, result: XcmResult)
    ensures
        <(T0, T1, T2, T3, T4, T5, T6, T7, T8, T9, T10, T11, T12, T13, T14, T15, T16, T17, T18, T19,) as SendXcm>::sends(destination, message, result) <==> <(T0, (T1, T2, T3, T4, T5, T6, T7, T8, T9, T10, T11, T12, T13, T14, T15, T16, T17, T18, T19,)) as SendXcm>::sends(
            destination,
            message,
            result,
        ),
{
    assert forall|d: MultiLocation, m: Xcm<()>, r: XcmResult|
        <((T1, T2, T3, T4, T5, T6, T7, T8, T9, T10, T11, T12, T13, T14, T15, T16, T17, T18, T19,),) as SendXcm>::sends(d, m, r) <==> #[trigger] <(T1, T2, T3, T4, T5, T6, T7, T8, T9, T10, T11, T12, T13, T14, T15, T16, T17, T18, T19,) as SendXcm>::sends(d, m, r) by {
        lemma_single_chain::<(T1, T2, T3, T4, T5, T6, T7, T8, T9, T10, T11, T12, T13, T14, T15, T16, T17, T18, T19,)>(d, m, r);
    }
    if <(T0, T1, T2, T3, T4, T5, T6, T7, T8, T9, T10, T11, T12, T13, T14, T15, T16, T17, T18, T19,) as SendXcm>::sends(destination, message, result) {
        let a = choose|a: XcmResult|
            #[trigger] T0::sends(destination, message, a) && hand_on(a, |d, m, r| <(T1, T2, T3, T4, T5, T6, T7, T8, T9, T10, T11, T12, T13, T14, T15, T16, T17, T18, T19,) as SendXcm>::sends(d, m, r), result);
        assert(hand_on(a, |d, m, r| <((T1, T2, T3, T4, T5, T6, T7, T8, T9, T10, T11, T12, T13, T14, T15, T16, T17, T18, T19,),) as SendXcm>::sends(d, m, r), result));
    }
    if <(T0, (T1, T2, T3, T4, T5, T6, T7, T8, T9, T10, T11, T12, T13, T14, T15, T16, T17, T18, T19,)) as SendXcm>::sends(destination, message, result) {
        let a = choose|a: XcmResult|
            #[trigger] T0::sends(destination, message, a) && hand_on(a, |d, m, r| <((T1, T2, T3, T4, T5, T6, T7, T8, T9, T10, T11, T12, T13, T14, T15, T16, T17, T18, T19,),) as SendXcm>::sends(d, m, r), result);
        assert(hand_on(a, |d, m, r| <(T1, T2, T3, T4, T5, T6, T7, T8, T9, T10, T11, T12, T13, T14, T15, T16, T17, T18, T19,) as SendXcm>::sends(d, m, r), result));
    }
}

/// A chain of 21 senders answers as its first sender chained with the chain
/// of the other 20.
pub proof fn lemma_chain_of_21<T0: SendXcm, T1: SendXcm, T2: SendXcm, T3: SendXcm, T4: SendXcm, T5: SendXcm, T6: SendXcm, T7: SendXcm, T8: SendXcm, T9: SendXcm, T10: SendXcm, T11: SendXcm, T12: SendXcm, T13: SendXcm, T14: SendXcm, T15: SendXcm, T16: SendXcm, T17: SendXcm, T18: SendXcm, T19: SendXcm, T20: SendXcm>(destination: MultiLocation, message: Xcm<()>, result: XcmResult)
    ensures
        <(T0, T1, T2, T3, T4, T5, T6, T7, T8, T9, T10, T11, T12, T13, T14, T15, T16, T17, T18, T19, T20,) as SendXcm>::sends(destination, message, result) <==> <(T0, (T1, T2, T3, T4, T5, T6, T7, T8, T9, T10, T11, T12, T13, T14, T15, T16, T17, T18, T19, T20,)) as SendXcm>::sends(
            destination,
            message,
            result,
        ),
{
    assert forall|d: MultiLocation, m: Xcm<()>, r: XcmResult|
        <((T1, T2, T3, T4, T5, T6, T7, T8, T9, T10, T11, T12, T13, T14, T15, T16, T17, T18, T19, T20,),) as SendXcm>::sends(d, m, r) <==> #[trigger] <(T1, T2, T3, T4, T5, T6, T7, T8, T9, T10, T11, T12, T13, T14, T15, T16, T17, T18, T19, T20,) as SendXcm>::sends(d, m, r) by {
        lemma_single_chain::<(T1, T2, T3, T4, T5, T6, T7, T8, T9, T10, T11, T12, T13, T14, T15, T16, T17, T18, T19, T20,)>(d, m, r);
    }
    if <(T0, T1, T2, T3, T4, T5, T6, T7, T8, T9, T10, T11, T12, T13, T14, T15, T16, T17, T18, T19, T20,) as SendXcm>::sends(destination, message, result) {
        let a = choose|a: XcmResult|
            #[trigger] T0::sends(destination, message, a) && hand_on(a, |d, m, r| <(T1, T2, T3, T4, T5, T6, T7, T8, T9, T10, T11, T12, T13, T14, T15, T16, T17, T18, T19, T20,) as SendXcm>::sends(d, m, r), result);
        assert(hand_on(a, |d, m, r| <((T1, T2, T3, T4, T5, T6, T7, T8, T9, T10, T11, T12, T13, T14, T15, T16, T17, T18, T19, T20,),) as SendXcm>::sends(d, m, r), result));
    }
    if <(T0, (T1, T2, T3, T4, T5, T6, T7, T8, T9, T10, T11, T12, T13, T14, T15, T16, T17, T18, T19, T20,)) as SendXcm>::sends(destination, message, result) {
        let a = choose|a: XcmResult|
            #[trigger] T0::sends(destination, message, a) && hand_on(a, |d, m, r| <((T1, T2, T3, T4, T5, T6, T7, T8, T9, T10, T11, T12, T13, T14, T15, T16, T17, T18, T19, T20,),) as SendXcm>::sends(d, m, r), result);
        assert(hand_on(a, |d, m, r| <(T1, T2, T3, T4, T5, T6, T7, T8, T9, T10, T11, T12, T13, T14, T15, T16, T17, T18, T19, T20,) as SendXcm>::sends(d, m, r), result));
    }
}

/// A chain of 22 senders answers as its first sender chained with the chain
/// of the other 21.
pub proof fn lemma_chain_of_22<T0: SendXcm, T1: SendXcm, T2: SendXcm, T3: SendXcm, T4: SendXcm, T5: SendXcm, T6: SendXcm, T7: SendXcm, T8: SendXcm, T9: SendXcm, T10: SendXcm, T11: SendXcm, T12: SendXcm, T13: SendXcm, T14: SendXcm, T15: SendXcm, T16: SendXcm, T17: SendXcm, T18: SendXcm, T19: SendXcm, T20: SendXcm, T21: SendXcm>(destination: MultiLocation, message: Xcm<()>, result: XcmResult)
    ensures
        <(T0, T1, T2, T3, T4, T5, T6, T7, T8, T9, T10, T11, T12, T13, T14, T15, T16, T17, T18, T19, T20, T21,) as SendXcm>::sends(destination, message, result) <==> <(T0, (T1, T2, T3, T4, T5, T6, T7, T8, T9, T10, T11, T12, T13, T14, T15, T16, T17, T18, T19, T20, T21,)) as SendXcm>::sends(
            destination,
            message,
            result,
        ),
{
    assert forall|d: MultiLocation, m: Xcm<()>, r: XcmResult|
        <((T1, T2, T3, T4, T5, T6, T7, T8, T9, T10, T11, T12, T13, T14, T15, T16, T17, T18, T19, T20, T21,),) as SendXcm>::sends(d, m, r) <==> #[trigger] <(T1, T2, T3, T4, T5, T6, T7, T8, T9, T10, T11, T12, T13, T14, T15, T16, T17, T18, T19, T20, T21,) as SendXcm>::sends(d, m, r) by {
        lemma_single_chain::<(T1, T2, T3, T4, T5, T6, T7, T8, T9, T10, T11, T12, T13, T14, T15, T16, T17, T18, T19, T20, T21,)>(d, m, r);
    }
    if <(T0, T1, T2, T3, T4, T5, T6, T7, T8, T9, T10, T11, T12, T13, T14, T15, T16, T17, T18, T19, T20, T21,) as SendXcm>::sends(destination, message, result) {
        let a = choose|a: XcmResult|
            #[trigger] T0::sends(destination, message, a) && hand_on(a, |d, m, r| <(T1, T2, T3, T4, T5, T6, T7, T8, T9, T10, T11, T12, T13, T14, T15, T16, T17, T18, T19, T20, T21,) as SendXcm>::sends(d, m, r), result);
        assert(hand_on(a, |d, m, r| <((T1, T2, T3, T4, T5, T6, T7, T8, T9, T10, T11, T12, T13, T14, T15, T16, T17, T18, T19, T20, T21,),) as SendXcm>::sends(d, m, r), result));
    }
    if <(T0, (T1, T2, T3, T4, T5, T6, T7, T8, T9, T10, T11, T12, T13, T14, T15, T16, T17, T18, T19, T20, T21,)) as SendXcm>::sends(destination, message, result) {
        let a = choose|a: XcmResult|
            #[trigger] T0::sends(destination, message, a) && hand_on(a, |d, m, r| <((T1, T2, T3, T4, T5, T6, T7, T8, T9, T10, T11, T12, T13, T14, T15, T16, T17, T18, T19, T20, T21,),) as SendXcm>::sends(d, m, r), result);
        assert(hand_on(a, |d, m, r| <(T1, T2, T3, T4, T5, T6, T7, T8, T9, T10, T11, T12, T13, T14, T15, T16, T17, T18, T19, T20, T21,) as SendXcm>::sends(d, m, r), result));
    }
}

/// A chain of 23 senders answers as its first sender chained with the chain
/// of the other 22.
pub proof fn lemma_chain_of_23<T0: SendXcm, T1: SendXcm, T2: SendXcm, T3: SendXcm, T4: SendXcm, T5: SendXcm, T6: SendXcm, T7: SendXcm, T8: SendXcm, T9: SendXcm, T10: SendXcm, T11: SendXcm, T12: SendXcm, T13: SendXcm, T14: SendXcm, T15: SendXcm, T16: SendXcm, T17: SendXcm, T18: SendXcm, T19: SendXcm, T20: SendXcm, T21: SendXcm, T22: SendXcm>(destination: MultiLocation, message: Xcm<()>, result: XcmResult)
    ensures
        <(T0, T1, T2, T3, T4, T5, T6, T7, T8, T9, T10, T11, T12, T13, T14, T15, T16, T17, T18, T19, T20, T21, T22,) as SendXcm>::sends(destination, message, result) <==> <(T0, (T1, T2, T3, T4, T5, T6, T7, T8, T9, T10, T11, T12, T13, T14, T15, T16, T17, T18, T19, T20, T21, T22,)) as SendXcm>::sends(
            destination,
            message,
            result,
        ),
{
    assert forall|d: MultiLocation, m: Xcm<()>, r: XcmResult|
        <((T1, T2, T3, T4, T5, T6, T7, T8, T9, T10, T11, T12, T13, T14, T15, T16, T17, T18, T19, T20, T21, T22,),) as SendXcm>::sends(d, m, r) <==> #[trigger] <(T1, T2, T3, T4, T5, T6, T7, T8, T9, T10, T11, T12, T13, T14, T15, T16, T17, T18, T19, T20, T21, T22,) as SendXcm>::sends(d, m, r) by {
        lemma_single_chain::<(T1, T2, T3, T4, T5, T6, T7, T8, T9, T10, T11, T12, T13, T14, T15, T16, T17, T18, T19, T20, T21, T22,)>(d, m, r);
    }
    if <(T0, T1, T2, T3, T4, T5, T6, T7, T8, T9, T10, T11, T12, T13, T14, T15, T16, T17, T18, T19, T20, T21, T22,) as SendXcm>::sends(destination, message, result) {
        let a = choose|a: XcmResult|
            #[trigger] T0::sends(destination, message, a) && hand_on(a, |d, m, r| <(T1, T2, T3, T4, T5, T6, T7, T8, T9, T10, T11, T12, T13, T14, T15, T16, T17, T18, T19, T20, T21, T22,) as SendXcm>::sends(d, m, r), result);
        assert(hand_on(a, |d, m, r| <((T1, T2, T3, T4, T5, T6, T7, T8, T9, T10, T11, T12, T13, T14, T15, T16, T17, T18, T19, T20, T21, T22,),) as SendXcm>::sends(d, m, r), result));
    }
    if <(T0, (T1, T2, T3, T4, T5, T6, T7, T8, T9, T10, T11, T12, T13, T14, T15, T16, T17, T18, T19, T20, T21, T22,)) as SendXcm>::sends(destination, message, result) {
        let a = choose|a: XcmResult|
            #[trigger] T0::sends(destination, message, a) && hand_on(a, |d, m, r| <((T1, T2, T3, T4, T5, T6, T7, T8, T9, T10, T11, T12, T13, T14, T15, T16, T17, T18, T19, T20, T21, T22,),) as SendXcm>::sends(d, m, r), result);
        assert(hand_on(a, |d, m, r| <(T1, T2, T3, T4, T5, T6, T7, T8, T9, T10, T11, T12, T13, T14, T15, T16, T17, T18, T19, T20, T21, T22,) as SendXcm>::sends(d, m, r), result));
    }
}

/// A chain of 24 senders answers as its first sender chained with the chain
/// of the other 23.
pub proof fn lemma_chain_of_24<T0: SendXcm, T1: SendXcm, T2: SendXcm, T3: SendXcm, T4: SendXcm, T5: SendXcm, T6: SendXcm, T7: SendXcm, T8: SendXcm, T9: SendXcm, T10: SendXcm, T11: SendXcm, T12: SendXcm, T13: SendXcm, T14: SendXcm, T15: SendXcm, T16: SendXcm, T17: SendXcm, T18: SendXcm, T19: SendXcm, T20: SendXcm, T21: SendXcm, T22: SendXcm, T23: SendXcm>(destination: MultiLocation, message: Xcm<()>, result: XcmResult)
    ensures
        <(T0, T1, T2, T3, T4, T5, T6, T7, T8, T9, T10, T11, T12, T13, T14, T15, T16, T17, T18, T19, T20, T21, T22, T23,) as SendXcm>::sends(destination, message, result) <==> <(T0, (T1, T2, T3, T4, T5, T6, T7, T8, T9, T10, T11, T12, T13, T14, T15, T16, T17, T18, T19, T20, T21, T22, T23,)) as SendXcm>::sends(
            destination,
            message,
            result,
        ),
{
    assert forall|d: MultiLocation, m: Xcm<()>, r: XcmResult|
        <((T1, T2, T3, T4, T5, T6, T7, T8, T9, T10, T11, T12, T13, T14, T15, T16, T17, T18, T19, T20, T21, T22, T23,),) as SendXcm>::sends(d, m, r) <==> #[trigger] <(T1, T2, T3, T4, T5, T6, T7, T8, T9, T10, T11, T12, T13, T14, T15, T16, T17, T18, T19, T20, T21, T22, T23,) as SendXcm>::sends(d, m, r) by {
        lemma_single_chain::<(T1, T2, T3, T4, T5, T6, T7, T8, T9, T10, T11, T12, T13, T14, T15, T16, T17, T18, T19, T20, T21, T22, T23,)>(d, m, r);
    }
    if <(T0, T1, T2, T3, T4, T5, T6, T7, T8, T9, T10, T11, T12, T13, T14, T15, T16, T17, T18, T19, T20, T21, T22, T23,) as SendXcm>::sends(destination, message, result) {
        let a = choose|a: XcmResult|
            #[trigger] T0::sends(destination, message, a) && hand_on(a, |d, m, r| <(T1, T2, T3, T4, T5, T6, T7, T8, T9, T10, T11, T12, T13, T14, T15, T16, T17, T18, T19, T20, T21, T22, T23,) as SendXcm>::sends(d, m, r), result);
        assert(hand_on(a, |d, m, r| <((T1, T2, T3, T4, T5, T6, T7, T8, T9, T10, T11, T12, T13, T14, T15, T16, T17, T18, T19, T20, T21, T22, T23,),) as SendXcm>::sends(d, m, r), result));
    }
    if <(T0, (T1, T2, T3, T4, T5, T6, T7, T8, T9, T10, T11, T12, T13, T14, T15, T16, T17, T18, T19, T20, T21, T22, T23,)) as SendXcm>::sends(destination, message, result) {
        let a = choose|a: XcmResult|
            #[trigger] T0::sends(destination, message, a) && hand_on(a, |d, m, r| <((T1, T2, T3, T4, T5, T6, T7, T8, T9, T10, T11, T12, T13, T14, T15, T16, T17, T18, T19, T20, T21, T22, T23,),) as SendXcm>::sends(d, m, r), result);
        assert(hand_on(a, |d, m, r| <(T1, T2, T3, T4, T5, T6, T7, T8, T9, T10, T11, T12, T13, T14, T15, T16, T17, T18, T19, T20, T21, T22, T23,) as SendXcm>::sends(d, m, r), result));
    }
}

/// A chain of 25 senders answers as its first sender chained with the chain
/// of the other 24.
pub proof fn lemma_chain_of_25<T0: SendXcm, T1: SendXcm, T2: SendXcm, T3: SendXcm, T4: SendXcm, T5: SendXcm, T6: SendXcm, T7: SendXcm, T8: SendXcm, T9: SendXcm, T10: SendXcm, T11: SendXcm, T12: SendXcm, T13: SendXcm, T14: SendXcm, T15: SendXcm, T16: SendXcm, T17: SendXcm, T18: SendXcm, T19: SendXcm, T20: SendXcm, T21: SendXcm, T22: SendXcm, T23: SendXcm, T24: SendXcm>(destination: MultiLocation, message: Xcm<()>, result: XcmResult)
    ensures
        <(T0, T1, T2, T3, T4, T5, T6, T7, T8, T9, T10, T11, T12, T13, T14, T15, T16, T17, T18, T19, T20, T21, T22, T23, T24,) as SendXcm>::sends(destination, message, result) <==> <(T0, (T1, T2, T3, T4, T5, T6, T7, T8, T9, T10, T11, T12, T13, T14, T15, T16, T17, T18, T19, T20, T21, T22, T23, T24,)) as SendXcm>::sends(
            destination,
            message,
            result,
        ),
{
    assert forall|d: MultiLocation, m: Xcm<()>, r: XcmResult|
        <((T1, T2, T3, T4, T5, T6, T7, T8, T9, T10, T11, T12, T13, T14, T15, T16, T17, T18, T19, T20, T21, T22, T23, T24,),) as SendXcm>::sends(d, m, r) <==> #[trigger] <(T1, T2, T3, T4, T5, T6, T7, T8, T9, T10, T11, T12, T13, T14, T15, T16, T17, T18, T19, T20, T21, T22, T23, T24,) as SendXcm>::sends(d, m, r) by {
        lemma_single_chain::<(T1, T2, T3, T4, T5, T6, T7, T8, T9, T10, T11, T12, T13, T14, T15, T16, T17, T18, T19, T20, T21, T22, T23, T24,)>(d, m, r);
    }
    if <(T0, T1, T2, T3, T4, T5, T6, T7, T8, T9, T10, T11, T12, T13, T14, T15, T16, T17, T18, T19, T20, T21, T22, T23, T24,) as SendXcm>::sends(destination, message, result) {
        let a = choose|a: XcmResult|
            #[trigger] T0::sends(destination, message, a) && hand_on(a, |d, m, r| <(T1, T2, T3, T4, T5, T6, T7, T8, T9, T10, T11, T12, T13, T14, T15, T16, T17, T18, T19, T20, T21, T22, T23, T24,) as SendXcm>::sends(d, m, r), result);
        assert(hand_on(a, |d, m, r| <((T1, T2, T3, T4, T5, T6, T7, T8, T9, T10, T11, T12, T13, T14, T15, T16, T17, T18, T19, T20, T21, T22, T23, T24,),) as SendXcm>::sends(d, m, r), result));
    }
    if <(T0, (T1, T2, T3, T4, T5, T6, T7, T8, T9, T10, T11, T12, T13, T14, T15, T16, T17, T18, T19, T20, T21, T22, T23, T24,)) as SendXcm>::sends(destination, message, result) {
        let a = choose|a: XcmResult|
            #[trigger] T0::sends(destination, message, a) && hand_on(a, |d, m, r| <((T1, T2, T3, T4, T5, T6, T7, T8, T9, T10, T11, T12, T13, T14, T15, T16, T17, T18, T19, T20, T21, T22, T23, T24,),) as SendXcm>::sends(d, m, r), result);
        assert(hand_on(a, |d, m, r| <(T1, T2, T3, T4, T5, T6, T7, T8, T9, T10, T11, T12, T13, T14, T15, T16, T17, T18, T19, T20, T21, T22, T23, T24,) as SendXcm>::sends(d, m, r), result));
    }
}

/// A chain of 26 senders answers as its first sender chained with the chain
/// of the other 25.
pub proof fn lemma_chain_of_26<T0: SendXcm, T1: SendXcm, T2: SendXcm, T3: SendXcm, T4: SendXcm, T5: SendXcm, T6: SendXcm, T7: SendXcm, T8: SendXcm, T9: SendXcm, T10: SendXcm, T11: SendXcm, T12: SendXcm, T13: SendXcm, T14: SendXcm, T15: SendXcm, T16: SendXcm, T17: SendXcm, T18: SendXcm, T19: SendXcm, T20: SendXcm, T21: SendXcm, T22: SendXcm, T23: SendXcm, T24: SendXcm, T25: SendXcm>(destination: MultiLocation, message: Xcm<()>, result: XcmResult)
    ensures
        <(T0, T1, T2, T3, T4, T5, T6, T7, T8, T9, T10, T11, T12, T13, T14, T15, T16, T17, T18, T19, T20, T21, T22, T23, T24, T25,) as SendXcm>::sends(destination, message, result) <==> <(T0, (T1, T2, T3, T4, T5, T6, T7, T8, T9, T10, T11, T12, T13, T14, T15, T16, T17, T18, T19, T20, T21, T22, T23, T24, T25,)) as SendXcm>::sends(
            destination,
            message,
            result,
        ),
{
    assert forall|d: MultiLocation, m: Xcm<()>, r: XcmResult|
        <((T1, T2, T3, T4, T5, T6, T7, T8, T9, T10, T11, T12, T13, T14, T15, T16, T17, T18, T19, T20, T21, T22, T23, T24, T25,),) as SendXcm>::sends(d, m, r) <==> #[trigger] <(T1, T2, T3, T4, T5, T6, T7, T8, T9, T10, T11, T12, T13, T14, T15, T16, T17, T18, T19, T20, T21, T22, T23, T24, T25,) as SendXcm>::sends(d, m, r) by {
        lemma_single_chain::<(T1, T2, T3, T4, T5, T6, T7, T8, T9, T10, T11, T12, T13, T14, T15, T16, T17, T18, T19, T20, T21, T22, T23, T24, T25,)>(d, m, r);
    }
    if <(T0, T1, T2, T3, T4, T5, T6, T7, T8, T9, T10, T11, T12, T13, T14, T15, T16, T17, T18, T19, T20, T21, T22, T23, T24, T25,) as SendXcm>::sends(destination, message, result) {
        let a = choose|a: XcmResult|
            #[trigger] T0::sends(destination, message, a) && hand_on(a, |d, m, r| <(T1, T2, T3, T4, T5, T6, T7, T8, T9, T10, T11, T12, T13, T14, T15, T16, T17, T18, T19, T20, T21, T22, T23, T24, T25,) as SendXcm>::sends(d, m, r), result);
        assert(hand_on(a, |d, m, r| <((T1, T2, T3, T4, T5, T6, T7, T8, T9, T10, T11, T12, T13, T14, T15, T16, T17, T18, T19, T20, T21, T22, T23, T24, T25,),) as SendXcm>::sends(d, m, r), result));
    }
    if <(T0, (T1, T2, T3, T4, T5, T6, T7, T8, T9, T10, T11, T12, T13, T14, T15, T16, T17, T18, T19, T20, T21, T22, T23, T24, T25,)) as SendXcm>::sends(destination, message, result) {
        let a = choose|a: XcmResult|
            #[trigger] T0::sends(destination, message, a) && hand_on(a, |d, m, r| <((T1, T2, T3, T4, T5, T6, T7, T8, T9, T10, T11, T12, T13, T14, T15, T16, T17, T18, T19, T20, T21, T22, T23, T24, T25,),) as SendXcm>::sends(d, m, r), result);
        assert(hand_on(a, |d, m, r| <(T1, T2, T3, T4, T5, T6, T7, T8, T9, T10, T11, T12, T13, T14, T15, T16, T17, T18, T19, T20, T21, T22, T23, T24, T25,) as SendXcm>::sends(d, m, r), result));
    }
}

/// A chain of 27 senders answers as its first sender chained with the chain
/// of the other 26.
pub proof fn lemma_chain_of_27<T0: SendXcm, T1: SendXcm, T2: SendXcm, T3: SendXcm, T4: SendXcm, T5: SendXcm, T6: SendXcm, T7: SendXcm, T8: SendXcm, T9: SendXcm, T10: SendXcm, T11: SendXcm, T12: SendXcm, T13: SendXcm, T14: SendXcm, T15: SendXcm, T16: SendXcm, T17: SendXcm, T18: SendXcm, T19: SendXcm, T20: SendXcm, T21: SendXcm, T22: SendXcm, T23: SendXcm, T24: SendXcm, T25: SendXcm, T26: SendXcm>(destination: MultiLocation, message: Xcm<()>, result: XcmResult)
    ensures
        <(T0, T1, T2, T3, T4, T5, T6, T7, T8, T9, T10, T11, T12, T13, T14, T15, T16, T17, T18, T19, T20, T21, T22, T23, T24, T25, T26,) as SendXcm>::sends(destination, message, result) <==> <(T0, (T1, T2, T3, T4, T5, T6, T7, T8, T9, T10, T11, T12, T13, T14, T15, T16, T17, T18, T19, T20, T21, T22, T23, T24, T25, T26,)) as SendXcm>::sends(
            destination,
            message,
            result,
        ),
{
    assert forall|d: MultiLocation, m: Xcm<()>, r: XcmResult|
        <((T1, T2, T3, T4, T5, T6, T7, T8, T9, T10, T11, T12, T13, T14, T15, T16, T17, T18, T19, T20, T21, T22, T23, T24, T25, T26,),) as SendXcm>::sends(d, m, r) <==> #[trigger] <(T1, T2, T3, T4, T5, T6, T7, T8, T9, T10, T11, T12, T13, T14, T15, T16, T17, T18, T19, T20, T21, T22, T23, T24, T25, T26,) as SendXcm>::sends(d, m, r) by {
        lemma_single_chain::<(T1, T2, T3, T4, T5, T6, T7, T8, T9, T10, T11, T12, T13, T14, T15, T16, T17, T18, T19, T20, T21, T22, T23, T24, T25, T26,)>(d, m, r);
    }
    if <(T0, T1, T2, T3, T4, T5, T6, T7, T8, T9, T10, T11, T12, T13, T14, T15, T16, T17, T18, T19, T20, T21, T22, T23, T24, T25, T26,) as SendXcm>::sends(destination, message, result) {
        let a = choose|a: XcmResult|
            #[trigger] T0::sends(destination, message, a) && hand_on(a, |d, m, r| <(T1, T2, T3, T4, T5, T6, T7, T8, T9, T10, T11, T12, T13, T14, T15, T16, T17, T18, T19, T20, T21, T22, T23, T24, T25, T26,) as SendXcm>::sends(d, m, r), result);
        assert(hand_on(a, |d, m, r| <((T1, T2, T3, T4, T5, T6, T7, T8, T9, T10, T11, T12, T13, T14, T15, T16, T17, T18, T19, T20, T21, T22, T23, T24, T25, T26,),) as SendXcm>::sends(d, m, r), result));
    }
    if <(T0, (T1, T2, T3, T4, T5, T6, T7, T8, T9, T10, T11, T12, T13, T14, T15, T16, T17, T18, T19, T20, T21, T22, T23, T24, T25, T26,)) as SendXcm>::sends(destination, message, result) {
        let a = choose|a: XcmResult|
            #[trigger] T0::sends(destination, message, a) && hand_on(a, |d, m, r| <((T1, T2, T3, T4, T5, T6, T7, T8, T9, T10, T11, T12, T13, T14, T15, T16, T17, T18, T19, T20, T21, T22, T23, T24, T25, T26,),) as SendXcm>::sends(d, m, r), result);
        assert(hand_on(a, |d, m, r| <(T1, T2, T3, T4, T5, T6, T7, T8, T9, T10, T11, T12, T13, T14, T15, T16, T17, T18, T19, T20, T21, T22, T23, T24, T25, T26,) as SendXcm>::sends(d, m, r), result));
    }
}

/// A chain of 28 senders answers as its first sender chained with the chain
/// of the other 27.
pub proof fn lemma_chain_of_28<T0: SendXcm, T1: SendXcm, T2: SendXcm, T3: SendXcm, T4: SendXcm, T5: SendXcm, T6: SendXcm, T7: SendXcm, T8: SendXcm, T9: SendXcm, T10: SendXcm, T11: SendXcm, T12: SendXcm, T13: SendXcm, T14: SendXcm, T15: SendXcm, T16: SendXcm, T17: SendXcm, T18: SendXcm, T19: SendXcm, T20: SendXcm, T21: SendXcm, T22: SendXcm, T23: SendXcm, T24: SendXcm, T25: SendXcm, T26: SendXcm, T27: SendXcm>(destination: MultiLocation, message: Xcm<()>, result: XcmResult)
    ensures
        <(T0, T1, T2, T3, T4, T5, T6, T7, T8, T9, T10, T11, T12, T13, T14, T15, T16, T17, T18, T19, T20, T21, T22, T23, T24, T25, T26, T27,) as SendXcm>::sends(destination, message, result) <==> <(T0, (T1, T2, T3, T4, T5, T6, T7, T8, T9, T10, T11, T12, T13, T14, T15, T16, T17, T18, T19, T20, T21, T22, T23, T24, T25, T26, T27,)) as SendXcm>::sends(
            destination,
            message,
            result,
        ),
{
    assert forall|d: MultiLocation, m: Xcm<()>, r: XcmResult|
        <((T1, T2, T3, T4, T5, T6, T7, T8, T9, T10, T11, T12, T13, T14, T15, T16, T17, T18, T19, T20, T21, T22, T23, T24, T25, T26, T27,),) as SendXcm>::sends(d, m, r) <==> #[trigger] <(T1, T2, T3, T4, T5, T6, T7, T8, T9, T10, T11, T12, T13, T14, T15, T16, T17, T18, T19, T20, T21, T22, T23, T24, T25, T26, T27,) as SendXcm>::sends(d, m, r) by {
        lemma_single_chain::<(T1, T2, T3, T4, T5, T6, T7, T8, T9, T10, T11, T12, T13, T14, T15, T16, T17, T18, T19, T20, T21, T22, T23, T24, T25, T26, T27,)>(d, m, r);
    }
    if <(T0, T1, T2, T3, T4, T5, T6, T7, T8, T9, T10, T11, T12, T13, T14, T15, T16, T17, T18, T19, T20, T21, T22, T23, T24, T25, T26, T27,) as SendXcm>::sends(destination, message, result) {
        let a = choose|a: XcmResult|
            #[trigger] T0::sends(destination, message, a) && hand_on(a, |d, m, r| <(T1, T2, T3, T4, T5, T6, T7, T8, T9, T10, T11, T12, T13, T14, T15, T16, T17, T18, T19, T20, T21, T22, T23, T24, T25, T26, T27,) as SendXcm>::sends(d, m, r), result);
        assert(hand_on(a, |d, m, r| <((T1, T2, T3, T4, T5, T6, T7, T8, T9, T10, T11, T12, T13, T14, T15, T16, T17, T18, T19, T20, T21, T22, T23, T24, T25, T26, T27,),) as SendXcm>::sends(d, m, r), result));
    }
    if <(T0, (T1, T2, T3, T4, T5, T6, T7, T8, T9, T10, T11, T12, T13, T14, T15, T16, T17, T18, T19, T20, T21, T22, T23, T24, T25, T26, T27,)) as SendXcm>::sends(destination, message, result) {
        let a = choose|a: XcmResult|
            #[trigger] T0::sends(destination, message, a) && hand_on(a, |d, m, r| <((T1, T2, T3, T4, T5, T6, T7, T8, T9, T10, T11, T12, T13, T14, T15, T16, T17, T18, T19, T20, T21, T22, T23, T24, T25, T26, T27,),) as SendXcm>::sends(d, m, r), result);
        assert(hand_on(a, |d, m, r| <(T1, T2, T3, T4, T5, T6, T7, T8, T9, T10, T11, T12, T13, T14, T15, T16, T17, T18, T19, T20, T21, T22, T23, T24, T25, T26, T27,) as SendXcm>::sends(d, m, r), result));
    }
}

/// A chain of 29 senders answers as its first sender chained with the chain
/// of the other 28.
pub proof fn lemma_chain_of_29<T0: SendXcm, T1: SendXcm, T2: SendXcm, T3: SendXcm, T4: SendXcm, T5: SendXcm, T6: SendXcm, T7: SendXcm, T8: SendXcm, T9: SendXcm, T10: SendXcm, T11: SendXcm, T12: SendXcm, T13: SendXcm, T14: SendXcm, T15: SendXcm, T16: SendXcm, T17: SendXcm, T18: SendXcm, T19: SendXcm, T20: SendXcm, T21: SendXcm, T22: SendXcm, T23: SendXcm, T24: SendXcm, T25: SendXcm, T26: SendXcm, T27: SendXcm, T28: SendXcm>(destination: MultiLocation, message: Xcm<()>, result: XcmResult)
    ensures
        <(T0, T1, T2, T3, T4, T5, T6, T7, T8, T9, T10, T11, T12, T13, T14, T15, T16, T17, T18, T19, T20, T21, T22, T23, T24, T25, T26, T27, T28,) as SendXcm>::sends(destination, message, result) <==> <(T0, (T1, T2, T3, T4, T5, T6, T7, T8, T9, T10, T11, T12, T13, T14, T15, T16, T17, T18, T19, T20, T21, T22, T23, T24, T25, T26, T27, T28,)) as SendXcm>::sends(
            destination,
            message,
            result,
        ),
{
    assert forall|d: MultiLocation, m: Xcm<()>, r: XcmResult|
        <((T1, T2, T3, T4, T5, T6, T7, T8, T9, T10, T11, T12, T13, T14, T15, T16, T17, T18, T19, T20, T21, T22, T23, T24, T25, T26, T27, T28,),) as SendXcm>::sends(d, m, r) <==> #[trigger] <(T1, T2, T3, T4, T5, T6, T7, T8, T9, T10, T11, T12, T13, T14, T15, T16, T17, T18, T19, T20, T21, T22, T23, T24, T25, T26, T27, T28,) as SendXcm>::sends(d, m, r) by {
        lemma_single_chain::<(T1, T2, T3, T4, T5, T6, T7, T8, T9, T10, T11, T12, T13, T14, T15, T16, T17, T18, T19, T20, T21, T22, T23, T24, T25, T26, T27, T28,)>(d, m, r);
    }
    if <(T0, T1, T2, T3, T4, T5, T6, T7, T8, T9, T10, T11, T12, T13, T14, T15, T16, T17, T18, T19, T20, T21, T22, T23, T24, T25, T26, T27, T28,) as SendXcm>::sends(destination, message, result) {
        let a = choose|a: XcmResult|
            #[trigger] T0::sends(destination, message, a) && hand_on(a, |d, m, r| <(T1, T2, T3, T4, T5, T6, T7, T8, T9, T10, T11, T12, T13, T14, T15, T16, T17, T18, T19, T20, T21, T22, T23, T24, T25, T26, T27, T28,) as SendXcm>::sends(d, m, r), result);
        assert(hand_on(a, |d, m, r| <((T1, T2, T3, T4, T5, T6, T7, T8, T9, T10, T11, T12, T13, T14, T15, T16, T17, T18, T19, T20, T21, T22, T23, T24, T25, T26, T27, T28,),) as SendXcm>::sends(d, m, r), result));
    }
    if <(T0, (T1, T2, T3, T4, T5, T6, T7, T8, T9, T10, T11, T12, T13, T14, T15, T16, T17, T18, T19, T20, T21, T22, T23, T24, T25, T26, T27, T28,)) as SendXcm>::sends(destination, message, result) {
        let a = choose|a: XcmResult|
            #[trigger] T0::sends(destination, message, a) && hand_on(a, |d, m, r| <((T1, T2, T3, T4, T5, T6, T7, T8, T9, T10, T11, T12, T13, T14, T15, T16, T17, T18, T19, T20, T21, T22, T23, T24, T25, T26, T27, T28,),) as SendXcm>::sends(d, m, r), result);
        assert(hand_on(a, |d, m, r| <(T1, T2, T3, T4, T5, T6, T7, T8, T9, T10, T11, T12, T13, T14, T15, T16, T17, T18, T19, T20, T21, T22, T23, T24, T25, T26, T27, T28,) as SendXcm>::sends(d, m, r), result));
    }
}

/// A chain of 30 senders answers as its first sender chained with the chain
/// of the other 29.
pub proof fn lemma_chain_of_30<T0: SendXcm, T1: SendXcm, T2: SendXcm, T3: SendXcm, T4: SendXcm, T5: SendXcm, T6: SendXcm, T7: SendXcm, T8: SendXcm, T9: SendXcm, T10: SendXcm, T11: SendXcm, T12: SendXcm, T13: SendXcm, T14: SendXcm, T15: SendXcm, T16: SendXcm, T17: SendXcm, T18: SendXcm, T19: SendXcm, T20: SendXcm, T21: SendXcm, T22: SendXcm, T23: SendXcm, T24: SendXcm, T25: SendXcm, T26: SendXcm, T27: SendXcm, T28: SendXcm, T29: SendXcm>(destination: MultiLocation, message: Xcm<()>, result: XcmResult)
    ensures
        <(T0, T1, T2, T3, T4, T5, T6, T7, T8, T9, T10, T11, T12, T13, T14, T15, T16, T17, T18, T19, T20, T21, T22, T23, T24, T25, T26, T27, T28, T29,) as SendXcm>::sends(destination, message, result) <==> <(T0, (T1, T2, T3, T4, T5, T6, T7, T8, T9, T10, T11, T12, T13, T14, T15, T16, T17, T18, T19, T20, T21, T22, T23, T24, T25, T26, T27, T28, T29,)) as SendXcm>::sends(
            destination,
            message,
            result,
        ),
{
    assert forall|d: MultiLocation, m: Xcm<()>, r: XcmResult|
        <((T1, T2, T3, T4, T5, T6, T7, T8, T9, T10, T11, T12, T13, T14, T15, T16, T17, T18, T19, T20, T21, T22, T23, T24, T25, T26, T27, T28, T29,),) as SendXcm>::sends(d, m, r) <==> #[trigger] <(T1, T2, T3, T4, T5, T6, T7, T8, T9, T10, T11, T12, T13, T14, T15, T16, T17, T18, T19, T20, T21, T22, T23, T24, T25, T26, T27, T28, T29,) as SendXcm>::sends(d, m, r) by {
        lemma_single_chain::<(T1, T2, T3, T4, T5, T6, T7, T8, T9, T10, T11, T12, T13, T14, T15, T16, T17, T18, T19, T20, T21, T22, T23, T24, T25, T26, T27, T28, T29,)>(d, m, r);
    }
    if <(T0, T1, T2, T3, T4, T5, T6, T7, T8, T9, T10, T11, T12, T13, T14, T15, T16, T17, T18, T19, T20, T21, T22, T23, T24, T25, T26, T27, T28, T29,) as SendXcm>::sends(destination, message, result) {
        let a = choose|a: XcmResult|
            #[trigger] T0::sends(destination, message, a) && hand_on(a, |d, m, r| <(T1, T2, T3, T4, T5, T6, T7, T8, T9, T10, T11, T12, T13, T14, T15, T16, T17, T18, T19, T20, T21, T22, T23, T24, T25, T26, T27, T28, T29,) as SendXcm>::sends(d, m, r), result);
        assert(hand_on(a, |d, m, r| <((T1, T2, T3, T4, T5, T6, T7, T8, T9, T10, T11, T12, T13, T14, T15, T16, T17, T18, T19, T20, T21, T22, T23, T24, T25, T26, T27, T28, T29,),) as SendXcm>::sends(d, m, r), result));
    }
    if <(T0, (T1, T2, T3, T4, T5, T6, T7, T8, T9, T10, T11, T12, T13, T14, T15, T16, T17, T18, T19, T20, T21, T22, T23, T24, T25, T26, T27, T28, T29,)) as SendXcm>::sends(destination, message, result) {
        let a = choose|a: XcmResult|
            #[trigger] T0::sends(destination, message, a) && hand_on(a, |d, m, r| <((T1, T2, T3, T4, T5, T6, T7, T8, T9, T10, T11, T12, T13, T14, T15, T16, T17, T18, T19, T20, T21, T22, T23, T24, T25, T26, T27, T28, T29,),) as SendXcm>::sends(d, m, r), result);
        assert(hand_on(a, |d, m, r| <(T1, T2, T3, T4, T5, T6, T7, T8, T9, T10, T11, T12, T13, T14, T15, T16, T17, T18, T19, T20, T21, T22, T23, T24, T25, T26, T27, T28, T29,) as SendXcm>::sends(d, m, r), result));
    }
}

/// A tuple of one scheduler schedules the clean-ups of each member, one member
/// after the other, in member order.
pub proof fn lemma_cleanups_of_1<T0: ParachainCleanup>(id: ParaId)
    ensures
        <(T0,) as ParachainCleanup>::cleanups(id) == T0::cleanups(id),
{
    assert(T0::cleanups(id) + <() as ParachainCleanup>::cleanups(id) =~= T0::cleanups(id));
}

/// A tuple of 2 schedulers schedules the clean-ups of each member, one member
/// after the other, in member order.
pub proof fn lemma_cleanups_of_2<T0: ParachainCleanup, T1: ParachainCleanup>(id: ParaId)
    ensures
        <(T0, T1,) as ParachainCleanup>::cleanups(id) == T0::cleanups(id) + (T1::cleanups(id)),
{
    lemma_cleanups_of_1::<T1>(id);
}

/// A tuple of 3 schedulers schedules the clean-ups of each member, one member
/// after the other, in member order.
pub proof fn lemma_cleanups_of_3<T0: ParachainCleanup, T1: ParachainCleanup, T2: ParachainCleanup>(id: ParaId)
    ensures
        <(T0, T1, T2,) as ParachainCleanup>::cleanups(id) == T0::cleanups(id) + (T1::cleanups(id) + (T2::cleanups(id))),
{
    lemma_cleanups_of_2::<T1, T2>(id);
}

/// A tuple of 4 schedulers schedules the clean-ups of each member, one member
/// after the other, in member order.
pub proof fn lemma_cleanups_of_4<T0: ParachainCleanup, T1: ParachainCleanup, T2: ParachainCleanup, T3: ParachainCleanup>(id: ParaId)
    ensures
        <(T0, T1, T2, T3,) as ParachainCleanup>::cleanups(id) == T0::cleanups(id) + (T1::cleanups(id) + (T2::cleanups(id) + (T3::cleanups(id)))),
{
    lemma_cleanups_of_3::<T1, T2, T3>(id);
}

/// A tuple of 5 schedulers schedules the clean-ups of each member, one member
/// after the other, in member order.
pub proof fn lemma_cleanups_of_5<T0: ParachainCleanup, T1: ParachainCleanup, T2: ParachainCleanup, T3: ParachainCleanup, T4: ParachainCleanup>(id: ParaId)
    ensures
        <(T0, T1, T2, T3, T4,) as ParachainCleanup>::cleanups(id) == T0::cleanups(id) + (T1::cleanups(id) + (T2::cleanups(id) + (T3::cleanups(id) + (T4::cleanups(id))))),
{
    lemma_cleanups_of_4::<T1, T2, T3, T4>(id);
}

/// A tuple of 6 schedulers schedules the clean-ups of each member, one member
/// after the other, in member order.
pub proof fn lemma_cleanups_of_6<T0: ParachainCleanup, T1: ParachainCleanup, T2: ParachainCleanup, T3: ParachainCleanup, T4: ParachainCleanup, T5: ParachainCleanup>(id: ParaId)
    ensures
        <(T0, T1, T2, T3, T4, T5,) as ParachainCleanup>::cleanups(id) == T0::cleanups(id) + (T1::cleanups(id) + (T2::cleanups(id) + (T3::cleanups(id) + (T4::cleanups(id) + (T5::cleanups(id)))))),
{
    lemma_cleanups_of_5::<T1, T2, T3, T4, T5>(id);
}

/// A tuple of 7 schedulers schedules the clean-ups of each member, one member
/// after the other, in member order.
pub proof fn lemma_cleanups_of_7<T0: ParachainCleanup, T1: ParachainCleanup, T2: ParachainCleanup, T3: ParachainCleanup, T4: ParachainCleanup, T5: ParachainCleanup, T6: ParachainCleanup>(id: ParaId)
    ensures
        <(T0, T1, T2, T3, T4, T5, T6,) as ParachainCleanup>::cleanups(id) == T0::cleanups(id) + (T1::cleanups(id) + (T2::cleanups(id) + (T3::cleanups(id) + (T4::cleanups(id) + (T5::cleanups(id) + (T6::cleanups(id))))))),
{
    lemma_cleanups_of_6::<T1, T2, T3, T4, T5, T6>(id);
}

/// A tuple of 8 schedulers schedules the clean-ups of each member, one member
/// after the other, in member order.
pub proof fn lemma_cleanups_of_8<T0: ParachainCleanup, T1: ParachainCleanup, T2: ParachainCleanup, T3: ParachainCleanup, T4: ParachainCleanup, T5: ParachainCleanup, T6: ParachainCleanup, T7: ParachainCleanup>(id: ParaId)
    ensures
        <(T0, T1, T2, T3, T4, T5, T6, T7,) as ParachainCleanup>::cleanups(id) == T0::cleanups(id) + (T1::cleanups(id) + (T2::cleanups(id) + (T3::cleanups(id) + (T4::cleanups(id) + (T5::cleanups(id) + (T6::cleanups(id) + (T7::cleanups(id)))))))),
{
    lemma_cleanups_of_7::<T1, T2, T3, T4, T5, T6, T7>(id);
}

/// A tuple of 9 schedulers schedules the clean-ups of each member, one member
/// after the other, in member order.
pub proof fn lemma_cleanups_of_9<T0: ParachainCleanup, T1: ParachainCleanup, T2: ParachainCleanup, T3: ParachainCleanup, T4: ParachainCleanup, T5: ParachainCleanup, T6: ParachainCleanup, T7: ParachainCleanup, T8: ParachainCleanup>(id: ParaId)
    ensures
        <(T0, T1, T2, T3, T4, T5, T6, T7, T8,) as ParachainCleanup>::cleanups(id) == T0::cleanups(id) + (T1::cleanups(id) + (T2::cleanups(id) + (T3::cleanups(id) + (T4::cleanups(id) + (T5::cleanups(id) + (T6::cleanups(id) + (T7::cleanups(id) + (T8::cleanups(id))))))))),
{
    lemma_cleanups_of_8::<T1, T2, T3, T4, T5, T6, T7, T8>(id);
}

/// A tuple of 10 schedulers schedules the clean-ups of each member, one member
/// after the other, in member order.
pub proof fn lemma_cleanups_of_10<T0: ParachainCleanup, T1: ParachainCleanup, T2: ParachainCleanup, T3: ParachainCleanup, T4: ParachainCleanup, T5: ParachainCleanup, T6: ParachainCleanup, T7: ParachainCleanup, T8: ParachainCleanup, T9: ParachainCleanup>(id: ParaId)
    ensures
        <(T0, T1, T2, T3, T4, T5, T6, T7, T8, T9,) as ParachainCleanup>::cleanups(id) == T0::cleanups(id) + (T1::cleanups(id) + (T2::cleanups(id) + (T3::cleanups(id) + (T4::cleanups(id) + (T5::cleanups(id) + (T6::cleanups(id) + (T7::cleanups(id) + (T8::cleanups(id) + (T9::cleanups(id)))))))))),
{
    lemma_cleanups_of_9::<T1, T2, T3, T4, T5, T6, T7, T8, T9>(id);
}

/// A tuple of 11 schedulers schedules the clean-ups of each member, one member
/// after the other, in member order.
pub proof fn lemma_cleanups_of_11<T0: ParachainCleanup, T1: ParachainCleanup, T2: ParachainCleanup, T3: ParachainCleanup, T4: ParachainCleanup, T5: ParachainCleanup, T6: ParachainCleanup, T7: ParachainCleanup, T8: ParachainCleanup, T9: ParachainCleanup, T10: ParachainCleanup>(id: ParaId)
    ensures
        <(T0, T1, T2, T3, T4, T5, T6, T7, T8, T9, T10,) as ParachainCleanup>::cleanups(id) == T0::cleanups(id) + (T1::cleanups(id) + (T2::cleanups(id) + (T3::cleanups(id) + (T4::cleanups(id) + (T5::cleanups(id) + (T6::cleanups(id) + (T7::cleanups(id) + (T8::cleanups(id) + (T9::cleanups(id) + (T10::cleanups(id))))))))))),
{
    lemma_cleanups_of_10::<T1, T2, T3, T4, T5, T6, T7, T8, T9, T10>(id);
}

/// A tuple of 12 schedulers schedules the clean-ups of each member, one member
/// after the other, in member order.
pub proof fn lemma_cleanups_of_12<T0: ParachainCleanup, T1: ParachainCleanup, T2: ParachainCleanup, T3: ParachainCleanup, T4: ParachainCleanup, T5: ParachainCleanup, T6: ParachainCleanup, T7: ParachainCleanup, T8: ParachainCleanup, T9: ParachainCleanup, T10: ParachainCleanup, T11: ParachainCleanup>(id: ParaId)
    ensures
        <(T0, T1, T2, T3, T4, T5, T6, T7, T8, T9, T10, T11,) as ParachainCleanup>::cleanups(id) == T0::cleanups(id) + (T1::cleanups(id) + (T2::cleanups(id) + (T3::cleanups(id) + (T4::cleanups(id) + (T5::cleanups(id) + (T6::cleanups(id) + (T7::cleanups(id) + (T8::cleanups(id) + (T9::cleanups(id) + (T10::cleanups(id) + (T11::cleanups(id)))))))))))),
{
    lemma_cleanups_of_11::<T1, T2, T3, T4, T5, T6, T7, T8, T9, T10, T11>(id);
}

/// A tuple of 13 schedulers schedules the clean-ups of each member, one member
/// after the other, in member order.
pub proof fn lemma_cleanups_of_13<T0: ParachainCleanup, T1: ParachainCleanup, T2: ParachainCleanup, T3: ParachainCleanup, T4: ParachainCleanup, T5: ParachainCleanup, T6: ParachainCleanup, T7: ParachainCleanup, T8: ParachainCleanup, T9: ParachainCleanup, T10: ParachainCleanup, T11: ParachainCleanup, T12: ParachainCleanup>(id: ParaId)
    ensures
        <(T0, T1, T2, T3, T4, T5, T6, T7, T8, T9, T10, T11, T12,) as ParachainCleanup>::cleanups(id) == T0::cleanups(id) + (T1::cleanups(id) + (T2::cleanups(id) + (T3::cleanups(id) + (T4::cleanups(id) + (T5::cleanups(id) + (T6::cleanups(id) + (T7::cleanups(id) + (T8::cleanups(id) + (T9::cleanups(id) + (T10::cleanups(id) + (T11::cleanups(id) + (T12::cleanups(id))))))))))))),
{
    lemma_cleanups_of_12::<T1, T2, T3, T4, T5, T6, T7, T8, T9, T10, T11, T12>(id);
}

/// A tuple of 14 schedulers schedules the clean-ups of each member, one member
/// after the other, in member order.
pub proof fn lemma_cleanups_of_14<T0: ParachainCleanup, T1: ParachainCleanup, T2: ParachainCleanup, T3: ParachainCleanup, T4: ParachainCleanup, T5: ParachainCleanup, T6: ParachainCleanup, T7: ParachainCleanup, T8: ParachainCleanup, T9: ParachainCleanup, T10: ParachainCleanup, T11: ParachainCleanup, T12: ParachainCleanup, T13: ParachainCleanup>(id: ParaId)
    ensures
        <(T0, T1, T2, T3, T4, T5, T6, T7, T8, T9, T10, T11, T12, T13,) as ParachainCleanup>::cleanups(id) == T0::cleanups(id) + (T1::cleanups(id) + (T2::cleanups(id) + (T3::cleanups(id) + (T4::cleanups(id) + (T5::cleanups(id) + (T6::cleanups(id) + (T7::cleanups(id) + (T8::cleanups(id) + (T9::cleanups(id) + (T10::cleanups(id) + (T11::cleanups(id) + (T12::cleanups(id) + (T13::cleanups(id)))))))))))))),
{
    lemma_cleanups_of_13::<T1, T2, T3, T4, T5, T6, T7, T8, T9, T10, T11, T12, T13>(id);
}

/// A tuple of 15 schedulers schedules the clean-ups of each member, one member
/// after the other, in member order.
pub proof fn lemma_cleanups_of_15<T0: ParachainCleanup, T1: ParachainCleanup, T2: ParachainCleanup, T3: ParachainCleanup, T4: ParachainCleanup, T5: ParachainCleanup, T6: ParachainCleanup, T7: ParachainCleanup, T8: ParachainCleanup, T9: ParachainCleanup, T10: ParachainCleanup, T11: ParachainCleanup, T12: ParachainCleanup, T13: ParachainCleanup, T14: ParachainCleanup>(id: ParaId)
    ensures
        <(T0, T1, T2, T3, T4, T5, T6, T7, T8, T9, T10, T11, T12, T13, T14,) as ParachainCleanup>::cleanups(id) == T0::cleanups(id) + (T1::cleanups(id) + (T2::cleanups(id) + (T3::cleanups(id) + (T4::cleanups(id) + (T5::cleanups(id) + (T6::cleanups(id) + (T7::cleanups(id) + (T8::cleanups(id) + (T9::cleanups(id) + (T10::cleanups(id) + (T11::cleanups(id) + (T12::cleanups(id) + (T13::cleanups(id) + (T14::cleanups(id))))))))))))))),
{
    lemma_cleanups_of_14::<T1, T2, T3, T4, T5, T6, T7, T8, T9, T10, T11, T12, T13, T14>(id);
}

/// A tuple of 16 schedulers schedules the clean-ups of each member, one member
/// after the other, in member order.
pub proof fn lemma_cleanups_of_16<T0: ParachainCleanup, T1: ParachainCleanup, T2: ParachainCleanup, T3: ParachainCleanup, T4: ParachainCleanup, T5: ParachainCleanup, T6: ParachainCleanup, T7: ParachainCleanup, T8: ParachainCleanup, T9: ParachainCleanup, T10: ParachainCleanup, T11: ParachainCleanup, T12: ParachainCleanup, T13: ParachainCleanup, T14: ParachainCleanup, T15: ParachainCleanup>(id: ParaId)
    ensures
        <(T0, T1, T2, T3, T4, T5, T6, T7, T8, T9, T10, T11, T12, T13, T14, T15,) as ParachainCleanup>::cleanups(id) == T0::cleanups(id) + (T1::cleanups(id) + (T2::cleanups(id) + (T3::cleanups(id) + (T4::cleanups(id) + (T5::cleanups(id) + (T6::cleanups(id) + (T7::cleanups(id) + (T8::cleanups(id) + (T9::cleanups(id) + (T10::cleanups(id) + (T11::cleanups(id) + (T12::cleanups(id) + (T13::cleanups(id) + (T14::cleanups(id) + (T15::cleanups(id)))))))))))))))),
{
    lemma_cleanups_of_15::<T1, T2, T3, T4, T5, T6, T7, T8, T9, T10, T11, T12, T13, T14, T15>(id);
}

/// A tuple of 17 schedulers schedules the clean-ups of each member, one member
/// after the other, in member order.
pub proof fn lemma_cleanups_of_17<T0: ParachainCleanup, T1: ParachainCleanup, T2: ParachainCleanup, T3: ParachainCleanup, T4: ParachainCleanup, T5: ParachainCleanup, T6: ParachainCleanup, T7: ParachainCleanup, T8: ParachainCleanup, T9: ParachainCleanup, T10: ParachainCleanup, T11: ParachainCleanup, T12: ParachainCleanup, T13: ParachainCleanup, T14: ParachainCleanup, T15: ParachainCleanup, T16: ParachainCleanup>(id: ParaId)
    ensures
        <(T0, T1, T2, T3, T4, T5, T6, T7, T8, T9, T10, T11, T12, T13, T14, T15, T16,) as ParachainCleanup>::cleanups(id) == T0::cleanups(id) + (T1::cleanups(id) + (T2::cleanups(id) + (T3::cleanups(id) + (T4::cleanups(id) + (T5::cleanups(id) + (T6::cleanups(id) + (T7::cleanups(id) + (T8::cleanups(id) + (T9::cleanups(id) + (T10::cleanups(id) + (T11::cleanups(id) + (T12::cleanups(id) + (T13::cleanups(id) + (T14::cleanups(id) + (T15::cleanups(id) + (T16::cleanups(id))))))))))))))))),
{
    lemma_cleanups_of_16::<T1, T2, T3, T4, T5, T6, T7, T8, T9, T10, T11, T12, T13, T14, T15, T16>(id);
}

/// A tuple of 18 schedulers schedules the clean-ups of each member, one member
/// after the other, in member order.
pub proof fn lemma_cleanups_of_18<T0: ParachainCleanup, T1: ParachainCleanup, T2: ParachainCleanup, T3: ParachainCleanup, T4: ParachainCleanup, T5: ParachainCleanup, T6: ParachainCleanup, T7: ParachainCleanup, T8: ParachainCleanup, T9: ParachainCleanup, T10: ParachainCleanup, T11: ParachainCleanup, T12: ParachainCleanup, T13: ParachainCleanup, T14: ParachainCleanup, T15: ParachainCleanup, T16: ParachainCleanup, T17: ParachainCleanup>(id: ParaId)
    ensures
        <(T0, T1, T2, T3, T4, T5, T6, T7, T8, T9, T10, T11, T12, T13, T14, T15, T16, T17,) as ParachainCleanup>::cleanups(id) == T0::cleanups(id) + (T1::cleanups(id) + (T2::cleanups(id) + (T3::cleanups(id) + (T4::cleanups(id) + (T5::cleanups(id) + (T6::cleanups(id) + (T7::cleanups(id) + (T8::cleanups(id) + (T9::cleanups(id) + (T10::cleanups(id) + (T11::cleanups(id) + (T12::cleanups(id) + (T13::cleanups(id) + (T14::cleanups(id) + (T15::cleanups(id) + (T16::cleanups(id) + (T17::cleanups(id)))))))))))))))))),
{
    lemma_cleanups_of_17::<T1, T2, T3, T4, T5, T6, T7, T8, T9, T10, T11, T12, T13, T14, T15, T16, T17>(id);
}

/// A tuple of 19 schedulers schedules the clean-ups of each member, one member
/// after the other, in member order.
pub proof fn lemma_cleanups_of_19<T0: ParachainCleanup, T1: ParachainCleanup, T2: ParachainCleanup, T3: ParachainCleanup, T4: ParachainCleanup, T5: ParachainCleanup, T6: ParachainCleanup, T7: ParachainCleanup, T8: ParachainCleanup, T9: ParachainCleanup, T10: ParachainCleanup, T11: ParachainCleanup, T12: ParachainCleanup, T13: ParachainCleanup, T14: ParachainCleanup, T15: ParachainCleanup, T16: ParachainCleanup, T17: ParachainCleanup, T18: ParachainCleanup>(id: ParaId)
    ensures
        <(T0, T1, T2, T3, T4, T5, T6, T7, T8, T9, T10, T11, T12, T13, T14, T15, T16, T17, T18,) as ParachainCleanup>::cleanups(id) == T0::cleanups(id) + (T1::cleanups(id) + (T2::cleanups(id) + (T3::cleanups(id) + (T4::cleanups(id) + (T5::cleanups(id) + (T6::cleanups(id) + (T7::cleanups(id) + (T8::cleanups(id) + (T9::cleanups(id) + (T10::cleanups(id) + (T11::cleanups(id) + (T12::cleanups(id) + (T13::cleanups(id) + (T14::cleanups(id) + (T15::cleanups(id) + (T16::cleanups(id) + (T17::cleanups(id) + (T18::cleanups(id))))))))))))))))))),
{
    lemma_cleanups_of_18::<T1, T2, T3, T4, T5, T6, T7, T8, T9, T10, T11, T12, T13, T14, T15, T16, T17, T18>(id);
}

/// A tuple of 20 schedulers schedules the clean-ups of each member, one member
/// after the other, in member order.
pub proof fn lemma_cleanups_of_20<T0: ParachainCleanup, T1: ParachainCleanup, T2: ParachainCleanup, T3: ParachainCleanup, T4: ParachainCleanup, T5: ParachainCleanup, T6: ParachainCleanup, T7: ParachainCleanup, T8: ParachainCleanup, T9: ParachainCleanup, T10: ParachainCleanup, T11: ParachainCleanup, T12: ParachainCleanup, T13: ParachainCleanup, T14: ParachainCleanup, T15: ParachainCleanup, T16: ParachainCleanup, T17: ParachainCleanup, T18: ParachainCleanup, T19: ParachainCleanup>(id: ParaId)
    ensures
        <(T0, T1, T2, T3, T4, T5, T6, T7, T8, T9, T10, T11, T12, T13, T14, T15, T16, T17, T18, T19,) as ParachainCleanup>::cleanups(id) == T0::cleanups(id) + (T1::cleanups(id) + (T2::cleanups(id) + (T3::cleanups(id) + (T4::cleanups(id) + (T5::cleanups(id) + (T6::cleanups(id) + (T7::cleanups(id) + (T8::cleanups(id) + (T9::cleanups(id) + (T10::cleanups(id) + (T11::cleanups(id) + (T12::cleanups(id) + (T13::cleanups(id) + (T14::cleanups(id) + (T15::cleanups(id) + (T16::cleanups(id) + (T17::cleanups(id) + (T18::cleanups(id) + (T19::cleanups(id)))))))))))))))))))),
{
    lemma_cleanups_of_19::<T1, T2, T3, T4, T5, T6, T7, T8, T9, T10, T11, T12, T13, T14, T15, T16, T17, T18, T19>(id);
}

/// A tuple of 21 schedulers schedules the clean-ups of each member, one member
/// after the other, in member order.
pub proof fn lemma_cleanups_of_21<T0: ParachainCleanup, T1: ParachainCleanup, T2: ParachainCleanup, T3: ParachainCleanup, T4: ParachainCleanup, T5: ParachainCleanup, T6: ParachainCleanup, T7: ParachainCleanup, T8: ParachainCleanup, T9: ParachainCleanup, T10: ParachainCleanup, T11: ParachainCleanup, T12: ParachainCleanup, T13: ParachainCleanup, T14: ParachainCleanup, T15: ParachainCleanup, T16: ParachainCleanup, T17: ParachainCleanup, T18: ParachainCleanup, T19: ParachainCleanup, T20: ParachainCleanup>(id: ParaId)
    ensures
        <(T0, T1, T2, T3, T4, T5, T6, T7, T8, T9, T10, T11, T12, T13, T14, T15, T16, T17, T18, T19, T20,) as ParachainCleanup>::cleanups(id) == T0::cleanups(id) + (T1::cleanups(id) + (T2::cleanups(id) + (T3::cleanups(id) + (T4::cleanups(id) + (T5::cleanups(id) + (T6::cleanups(id) + (T7::cleanups(id) + (T8::cleanups(id) + (T9::cleanups(id) + (T10::cleanups(id) + (T11::cleanups(id) + (T12::cleanups(id) + (T13::cleanups(id) + (T14::cleanups(id) + (T15::cleanups(id) + (T16::cleanups(id) + (T17::cleanups(id) + (T18::cleanups(id) + (T19::cleanups(id) + (T20::cleanups(id))))))))))))))))))))),
{
    lemma_cleanups_of_20::<T1, T2, T3, T4, T5, T6, T7, T8, T9, T10, T11, T12, T13, T14, T15, T16, T17, T18, T19, T20>(id);
}

/// A tuple of 22 schedulers schedules the clean-ups of each member, one member
/// after the other, in member order.
pub proof fn lemma_cleanups_of_22<T0: ParachainCleanup, T1: ParachainCleanup, T2: ParachainCleanup, T3: ParachainCleanup, T4: ParachainCleanup, T5: ParachainCleanup, T6: ParachainCleanup, T7: ParachainCleanup, T8: ParachainCleanup, T9: ParachainCleanup, T10: ParachainCleanup, T11: ParachainCleanup, T12: ParachainCleanup, T13: ParachainCleanup, T14: ParachainCleanup, T15: ParachainCleanup, T16: ParachainCleanup, T17: ParachainCleanup, T18: ParachainCleanup, T19: ParachainCleanup, T20: ParachainCleanup, T21: ParachainCleanup>(id: ParaId)
    ensures
        <(T0, T1, T2, T3, T4, T5, T6, T7, T8, T9, T10, T11, T12, T13, T14, T15, T16, T17, T18, T19, T20, T21,) as ParachainCleanup>::cleanups(id) == T0::cleanups(id) + (T1::cleanups(id) + (T2::cleanups(id) + (T3::cleanups(id) + (T4::cleanups(id) + (T5::cleanups(id) + (T6::cleanups(id) + (T7::cleanups(id) + (T8::cleanups(id) + (T9::cleanups(id) + (T10::cleanups(id) + (T11::cleanups(id) + (T12::cleanups(id) + (T13::cleanups(id) + (T14::cleanups(id) + (T15::cleanups(id) + (T16::cleanups(id) + (T17::cleanups(id) + (T18::cleanups(id) + (T19::cleanups(id) + (T20::cleanups(id) + (T21::cleanups(id)))))))))))))))))))))),
{
    lemma_cleanups_of_21::<T1, T2, T3, T4, T5, T6, T7, T8, T9, T10, T11, T12, T13, T14, T15, T16, T17, T18, T19, T20, T21>(id);
}

/// A tuple of 23 schedulers schedules the clean-ups of each member, one member
/// after the other, in member order.
pub proof fn lemma_cleanups_of_23<T0: ParachainCleanup, T1: ParachainCleanup, T2: ParachainCleanup, T3: ParachainCleanup, T4: ParachainCleanup, T5: ParachainCleanup, T6: ParachainCleanup, T7: ParachainCleanup, T8: ParachainCleanup, T9: ParachainCleanup, T10: ParachainCleanup, T11: ParachainCleanup, T12: ParachainCleanup, T13: ParachainCleanup, T14: ParachainCleanup, T15: ParachainCleanup, T16: ParachainCleanup, T17: ParachainCleanup, T18: ParachainCleanup, T19: ParachainCleanup, T20: ParachainCleanup, T21: ParachainCleanup, T22: ParachainCleanup>(id: ParaId)
    ensures
        <(T0, T1, T2, T3, T4, T5, T6, T7, T8, T9, T10, T11, T12, T13, T14, T15, T16, T17, T18, T19, T20, T21, T22,) as ParachainCleanup>::cleanups(id) == T0::cleanups(id) + (T1::cleanups(id) + (T2::cleanups(id) + (T3::cleanups(id) + (T4::cleanups(id) + (T5::cleanups(id) + (T6::cleanups(id) + (T7::cleanups(id) + (T8::cleanups(id) + (T9::cleanups(id) + (T10::cleanups(id) + (T11::cleanups(id) + (T12::cleanups(id) + (T13::cleanups(id) + (T14::cleanups(id) + (T15::cleanups(id) + (T16::cleanups(id) + (T17::cleanups(id) + (T18::cleanups(id) + (T19::cleanups(id) + (T20::cleanups(id) + (T21::cleanups(id) + (T22::cleanups(id))))))))))))))))))))))),
{
    lemma_cleanups_of_22::<T1, T2, T3, T4, T5, T6, T7, T8, T9, T10, T11, T12, T13, T14, T15, T16, T17, T18, T19, T20, T21, T22>(id);
}

/// A tuple of 24 schedulers schedules the clean-ups of each member, one member
/// after the other, in member order.
pub proof fn lemma_cleanups_of_24<T0: ParachainCleanup, T1: ParachainCleanup, T2: ParachainCleanup, T3: ParachainCleanup, T4: ParachainCleanup, T5: ParachainCleanup, T6: ParachainCleanup, T7: ParachainCleanup, T8: ParachainCleanup, T9: ParachainCleanup, T10: ParachainCleanup, T11: ParachainCleanup, T12: ParachainCleanup, T13: ParachainCleanup, T14: ParachainCleanup, T15: ParachainCleanup, T16: ParachainCleanup, T17: ParachainCleanup, T18: ParachainCleanup, T19: ParachainCleanup, T20: ParachainCleanup, T21: ParachainCleanup, T22: ParachainCleanup, T23: ParachainCleanup>(id: ParaId)
    ensures
        <(T0, T1, T2, T3, T4, T5, T6, T7, T8, T9, T10, T11, T12, T13, T14, T15, T16, T17, T18, T19, T20, T21, T22, T23,) as ParachainCleanup>::cleanups(id) == T0::cleanups(id) + (T1::cleanups(id) + (T2::cleanups(id) + (T3::cleanups(id) + (T4::cleanups(id) + (T5::cleanups(id) + (T6::cleanups(id) + (T7::cleanups(id) + (T8::cleanups(id) + (T9::cleanups(id) + (T10::cleanups(id) + (T11::cleanups(id) + (T12::cleanups(id) + (T13::cleanups(id) + (T14::cleanups(id) + (T15::cleanups(id) + (T16::cleanups(id) + (T17::cleanups(id) + (T18::cleanups(id) + (T19::cleanups(id) + (T20::cleanups(id) + (T21::cleanups(id) + (T22::cleanups(id) + (T23::cleanups(id)))))))))))))))))))))))),
{
    lemma_cleanups_of_23::<T1, T2, T3, T4, T5, T6, T7, T8, T9, T10, T11, T12, T13, T14, T15, T16, T17, T18, T19, T20, T21, T22, T23>(id);
}

/// A tuple of 25 schedulers schedules the clean-ups of each member, one member
/// after the other, in member order.
pub proof fn lemma_cleanups_of_25<T0: ParachainCleanup, T1: ParachainCleanup, T2: ParachainCleanup, T3: ParachainCleanup, T4: ParachainCleanup, T5: ParachainCleanup, T6: ParachainCleanup, T7: ParachainCleanup, T8: ParachainCleanup, T9: ParachainCleanup, T10: ParachainCleanup, T11: ParachainCleanup, T12: ParachainCleanup, T13: ParachainCleanup, T14: ParachainCleanup, T15: ParachainCleanup, T16: ParachainCleanup, T17: ParachainCleanup, T18: ParachainCleanup, T19: ParachainCleanup, T20: ParachainCleanup, T21: ParachainCleanup, T22: ParachainCleanup, T23: ParachainCleanup, T24: ParachainCleanup>(id: ParaId)
    ensures
        <(T0, T1, T2, T3, T4, T5, T6, T7, T8, T9, T10, T11, T12, T13, T14, T15, T16, T17, T18, T19, T20, T21, T22, T23, T24,) as ParachainCleanup>::cleanups(id) == T0::cleanups(id) + (T1::cleanups(id) + (T2::cleanups(id) + (T3::cleanups(id) + (T4::cleanups(id) + (T5::cleanups(id) + (T6::cleanups(id) + (T7::cleanups(id) + (T8::cleanups(id) + (T9::cleanups(id) + (T10::cleanups(id) + (T11::cleanups(id) + (T12::cleanups(id) + (T13::cleanups(id) + (T14::cleanups(id) + (T15::cleanups(id) + (T16::cleanups(id) + (T17::cleanups(id) + (T18::cleanups(id) + (T19::cleanups(id) + (T20::cleanups(id) + (T21::cleanups(id) + (T22::cleanups(id) + (T23::cleanups(id) + (T24::cleanups(id))))))))))))))))))))))))),
{
    lemma_cleanups_of_24::<T1, T2, T3, T4, T5, T6, T7, T8, T9, T10, T11, T12, T13, T14, T15, T16, T17, T18, T19, T20, T21, T22, T23, T24>(id);
}

/// A tuple of 26 schedulers schedules the clean-ups of each member, one member
/// after the other, in member order.
pub proof fn lemma_cleanups_of_26<T0: ParachainCleanup, T1: ParachainCleanup, T2: ParachainCleanup, T3: ParachainCleanup, T4: ParachainCleanup, T5: ParachainCleanup, T6: ParachainCleanup, T7: ParachainCleanup, T8: ParachainCleanup, T9: ParachainCleanup, T10: ParachainCleanup, T11: ParachainCleanup, T12: ParachainCleanup, T13: ParachainCleanup, T14: ParachainCleanup, T15: ParachainCleanup, T16: ParachainCleanup, T17: ParachainCleanup, T18: ParachainCleanup, T19: ParachainCleanup, T20: ParachainCleanup, T21: ParachainCleanup, T22: ParachainCleanup, T23: ParachainCleanup, T24: ParachainCleanup, T25: ParachainCleanup>(id: ParaId)
    ensures
        <(T0, T1, T2, T3, T4, T5, T6, T7, T8, T9, T10, T11, T12, T13, T14, T15, T16, T17, T18, T19, T20, T21, T22, T23, T24, T25,) as ParachainCleanup>::cleanups(id) == T0::cleanups(id) + (T1::cleanups(id) + (T2::cleanups(id) + (T3::cleanups(id) + (T4::cleanups(id) + (T5::cleanups(id) + (T6::cleanups(id) + (T7::cleanups(id) + (T8::cleanups(id) + (T9::cleanups(id) + (T10::cleanups(id) + (T11::cleanups(id) + (T12::cleanups(id) + (T13::cleanups(id) + (T14::cleanups(id) + (T15::cleanups(id) + (T16::cleanups(id) + (T17::cleanups(id) + (T18::cleanups(id) + (T19::cleanups(id) + (T20::cleanups(id) + (T21::cleanups(id) + (T22::cleanups(id) + (T23::cleanups(id) + (T24::cleanups(id) + (T25::cleanups(id)))))))))))))))))))))))))),
{
    lemma_cleanups_of_25::<T1, T2, T3, T4, T5, T6, T7, T8, T9, T10, T11, T12, T13, T14, T15, T16, T17, T18, T19, T20, T21, T22, T23, T24, T25>(id);
}

/// A tuple of 27 schedulers schedules the clean-ups of each member, one member
/// after the other, in member order.
pub proof fn lemma_cleanups_of_27<T0: ParachainCleanup, T1: ParachainCleanup, T2: ParachainCleanup, T3: ParachainCleanup, T4: ParachainCleanup, T5: ParachainCleanup, T6: ParachainCleanup, T7: ParachainCleanup, T8: ParachainCleanup, T9: ParachainCleanup, T10: ParachainCleanup, T11: ParachainCleanup, T12: ParachainCleanup, T13: ParachainCleanup, T14: ParachainCleanup, T15: ParachainCleanup, T16: ParachainCleanup, T17: ParachainCleanup, T18: ParachainCleanup, T19: ParachainCleanup, T20: ParachainCleanup, T21: ParachainCleanup, T22: ParachainCleanup, T23: ParachainCleanup, T24: ParachainCleanup, T25: ParachainCleanup, T26: ParachainCleanup>(id: ParaId)
    ensures
        <(T0, T1, T2, T3, T4, T5, T6, T7, T8, T9, T10, T11, T12, T13, T14, T15, T16, T17, T18, T19, T20, T21, T22, T23, T24, T25, T26,) as ParachainCleanup>::cleanups(id) == T0::cleanups(id) + (T1::cleanups(id) + (T2::cleanups(id) + (T3::cleanups(id) + (T4::cleanups(id) + (T5::cleanups(id) + (T6::cleanups(id) + (T7::cleanups(id) + (T8::cleanups(id) + (T9::cleanups(id) + (T10::cleanups(id) + (T11::cleanups(id) + (T12::cleanups(id) + (T13::cleanups(id) + (T14::cleanups(id) + (T15::cleanups(id) + (T16::cleanups(id) + (T17::cleanups(id) + (T18::cleanups(id) + (T19::cleanups(id) + (T20::cleanups(id) + (T21::cleanups(id) + (T22::cleanups(id) + (T23::cleanups(id) + (T24::cleanups(id) + (T25::cleanups(id) + (T26::cleanups(id))))))))))))))))))))))))))),
{
    lemma_cleanups_of_26::<T1, T2, T3, T4, T5, T6, T7, T8, T9, T10, T11, T12, T13, T14, T15, T16, T17, T18, T19, T20, T21, T22, T23, T24, T25, T26>(id);
}

/// A tuple of 28 schedulers schedules the clean-ups of each member, one member
/// after the other, in member order.
pub proof fn lemma_cleanups_of_28<T0: ParachainCleanup, T1: ParachainCleanup, T2: ParachainCleanup, T3: ParachainCleanup, T4: ParachainCleanup, T5: ParachainCleanup, T6: ParachainCleanup, T7: ParachainCleanup, T8: ParachainCleanup, T9: ParachainCleanup, T10: ParachainCleanup, T11: ParachainCleanup, T12: ParachainCleanup, T13: ParachainCleanup, T14: ParachainCleanup, T15: ParachainCleanup, T16: ParachainCleanup, T17: ParachainCleanup, T18: ParachainCleanup, T19: ParachainCleanup, T20: ParachainCleanup, T21: ParachainCleanup, T22: ParachainCleanup, T23: ParachainCleanup, T24: ParachainCleanup, T25: ParachainCleanup, T26: ParachainCleanup, T27: ParachainCleanup>(id: ParaId)
    ensures
        <(T0, T1, T2, T3, T4, T5, T6, T7, T8, T9, T10, T11, T12, T13, T14, T15, T16, T17, T18, T19, T20, T21, T22, T23, T24, T25, T26, T27,) as ParachainCleanup>::cleanups(id) == T0::cleanups(id) + (T1::cleanups(id) + (T2::cleanups(id) + (T3::cleanups(id) + (T4::cleanups(id) + (T5::cleanups(id) + (T6::cleanups(id) + (T7::cleanups(id) + (T8::cleanups(id) + (T9::cleanups(id) + (T10::cleanups(id) + (T11::cleanups(id) + (T12::cleanups(id) + (T13::cleanups(id) + (T14::cleanups(id) + (T15::cleanups(id) + (T16::cleanups(id) + (T17::cleanups(id) + (T18::cleanups(id) + (T19::cleanups(id) + (T20::cleanups(id) + (T21::cleanups(id) + (T22::cleanups(id) + (T23::cleanups(id) + (T24::cleanups(id) + (T25::cleanups(id) + (T26::cleanups(id) + (T27::cleanups(id)))))))))))))))))))))))))))),
{
    lemma_cleanups_of_27::<T1, T2, T3, T4, T5, T6, T7, T8, T9, T10, T11, T12, T13, T14, T15, T16, T17, T18, T19, T20, T21, T22, T23, T24, T25, T26, T27>(id);
}

/// A tuple of 29 schedulers schedules the clean-ups of each member, one member
/// after the other, in member order.
pub proof fn lemma_cleanups_of_29<T0: ParachainCleanup, T1: ParachainCleanup, T2: ParachainCleanup, T3: ParachainCleanup, T4: ParachainCleanup, T5: ParachainCleanup, T6: ParachainCleanup, T7: ParachainCleanup, T8: ParachainCleanup, T9: ParachainCleanup, T10: ParachainCleanup, T11: ParachainCleanup, T12: ParachainCleanup, T13: ParachainCleanup, T14: ParachainCleanup, T15: ParachainCleanup, T16: ParachainCleanup, T17: ParachainCleanup, T18: ParachainCleanup, T19: ParachainCleanup, T20: ParachainCleanup, T21: ParachainCleanup, T22: ParachainCleanup, T23: ParachainCleanup, T24: ParachainCleanup, T25: ParachainCleanup, T26: ParachainCleanup, T27: ParachainCleanup, T28: ParachainCleanup>(id: ParaId)
    ensures
        <(T0, T1, T2, T3, T4, T5, T6, T7, T8, T9, T10, T11, T12, T13, T14, T15, T16, T17, T18, T19, T20, T21, T22, T23, T24, T25, T26, T27, T28,) as ParachainCleanup>::cleanups(id) == T0::cleanups(id) + (T1::cleanups(id) + (T2::cleanups(id) + (T3::cleanups(id) + (T4::cleanups(id) + (T5::cleanups(id) + (T6::cleanups(id) + (T7::cleanups(id) + (T8::cleanups(id) + (T9::cleanups(id) + (T10::cleanups(id) + (T11::cleanups(id) + (T12::cleanups(id) + (T13::cleanups(id) + (T14::cleanups(id) + (T15::cleanups(id) + (T16::cleanups(id) + (T17::cleanups(id) + (T18::cleanups(id) + (T19::cleanups(id) + (T20::cleanups(id) + (T21::cleanups(id) + (T22::cleanups(id) + (T23::cleanups(id) + (T24::cleanups(id) + (T25::cleanups(id) + (T26::cleanups(id) + (T27::cleanups(id) + (T28::cleanups(id))))))))))))))))))))))))))))),
{
    lemma_cleanups_of_28::<T1, T2, T3, T4, T5, T6, T7, T8, T9, T10, T11, T12, T13, T14, T15, T16, T17, T18, T19, T20, T21, T22, T23, T24, T25, T26, T27, T28>(id);
}

/// A tuple of 30 schedulers schedules the clean-ups of each member, one member
/// after the other, in member order.
pub proof fn lemma_cleanups_of_30<T0: ParachainCleanup, T1: ParachainCleanup, T2: ParachainCleanup, T3: ParachainCleanup, T4: ParachainCleanup, T5: ParachainCleanup, T6: ParachainCleanup, T7: ParachainCleanup, T8: ParachainCleanup, T9: ParachainCleanup, T10: ParachainCleanup, T11: ParachainCleanup, T12: ParachainCleanup, T13: ParachainCleanup, T14: ParachainCleanup, T15: ParachainCleanup, T16: ParachainCleanup, T17: ParachainCleanup, T18: ParachainCleanup, T19: ParachainCleanup, T20: ParachainCleanup, T21: ParachainCleanup, T22: ParachainCleanup, T23: ParachainCleanup, T24: ParachainCleanup, T25: ParachainCleanup, T26: ParachainCleanup, T27: ParachainCleanup, T28: ParachainCleanup, T29: ParachainCleanup>(id: ParaId)
    ensures
        <(T0, T1, T2, T3, T4, T5, T6, T7, T8, T9, T10, T11, T12, T13, T14, T15, T16, T17, T18, T19, T20, T21, T22, T23, T24, T25, T26, T27, T28, T29,) as ParachainCleanup>::cleanups(id) == T0::cleanups(id) + (T1::cleanups(id) + (T2::cleanups(id) + (T3::cleanups(id) + (T4::cleanups(id) + (T5::cleanups(id) + (T6::cleanups(id) + (T7::cleanups(id) + (T8::cleanups(id) + (T9::cleanups(id) + (T10::cleanups(id) + (T11::cleanups(id) + (T12::cleanups(id) + (T13::cleanups(id) + (T14::cleanups(id) + (T15::cleanups(id) + (T16::cleanups(id) + (T17::cleanups(id) + (T18::cleanups(id) + (T19::cleanups(id) + (T20::cleanups(id) + (T21::cleanups(id) + (T22::cleanups(id) + (T23::cleanups(id) + (T24::cleanups(id) + (T25::cleanups(id) + (T26::cleanups(id) + (T27::cleanups(id) + (T28::cleanups(id) + (T29::cleanups(id)))))))))))))))))))))))))))))),
{
    lemma_cleanups_of_29::<T1, T2, T3, T4, T5, T6, T7, T8, T9, T10, T11, T12, T13, T14, T15, T16, T17, T18, T19, T20, T21, T22, T23, T24, T25, T26, T27, T28, T29>(id);
}

} // verus!
