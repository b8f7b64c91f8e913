//! Tuples of senders and of clean-up schedulers.
//!
//! A tuple of senders offers the message to each member in turn, handing on
//! what a `CannotReachDestination` carries and stopping at any other answer; a
//! tuple of clean-up schedulers schedules what each member schedules, in the
//! order of the members.

use vstd::prelude::*;
use crate::cleanup::{ParaId, ParaModule, ParachainCleanup};
use crate::routing::{hand_on, SendXcm};
use crate::xcm::{Error, MultiLocation, Xcm, XcmResult};

verus! {

/// A chain of one sender.
impl<T0: SendXcm> SendXcm for (T0,) {
    open spec fn sends(destination: MultiLocation, message: Xcm<()>, result: XcmResult) -> bool {
        exists|a: XcmResult|
            #[trigger] T0::sends(destination, message, a) && hand_on(a, |d, m, r| <() as SendXcm>::sends(d, m, r), result)
    }

    fn send_xcm(destination: MultiLocation, message: Xcm<()>) -> (result: XcmResult) {
        match T0::send_xcm(destination, message) {
            Err(Error::CannotReachDestination(d, m)) => <() as SendXcm>::send_xcm(d, m),
            other => other,
        }
    }
}

/// A chain of 2 senders.
impl<T0: SendXcm, T1: SendXcm> SendXcm for (T0, T1,) {
    open spec fn sends(destination: MultiLocation, message: Xcm<()>, result: XcmResult) -> bool {
        exists|a: XcmResult|
            #[trigger] T0::sends(destination, message, a) && hand_on(a, |d, m, r| <(T1,) as SendXcm>::sends(d, m, r), result)
    }

    fn send_xcm(destination: MultiLocation, message: Xcm<()>) -> (result: XcmResult) {
        match T0::send_xcm(destination, message) {
            Err(Error::CannotReachDestination(d, m)) => <(T1,) as SendXcm>::send_xcm(d, m),
            other => other,
        }
    }
}

/// A chain of 3 senders.
impl<T0: SendXcm, T1: SendXcm, T2: SendXcm> SendXcm for (T0, T1, T2,) {
    open spec fn sends(destination: MultiLocation, message: Xcm<()>, result: XcmResult) -> bool {
        exists|a: XcmResult|
            #[trigger] T0::sends(destination, message, a) && hand_on(a, |d, m, r| <(T1, T2,) as SendXcm>::sends(d, m, r), result)
    }

    fn send_xcm(destination: MultiLocation, message: Xcm<()>) -> (result: XcmResult) {
        match T0::send_xcm(destination, message) {
            Err(Error::CannotReachDestination(d, m)) => <(T1, T2,) as SendXcm>::send_xcm(d, m),
            other => other,
        }
    }
}

/// A chain of 4 senders.
impl<T0: SendXcm, T1: SendXcm, T2: SendXcm, T3: SendXcm> SendXcm for (T0, T1, T2, T3,) {
    open spec fn sends(destination: MultiLocation, message: Xcm<()>, result: XcmResult) -> bool {
        exists|a: XcmResult|
            #[trigger] T0::sends(destination, message, a) && hand_on(a, |d, m, r| <(T1, T2, T3,) as SendXcm>::sends(d, m, r), result)
    }

    fn send_xcm(destination: MultiLocation, message: Xcm<()>) -> (result: XcmResult) {
        match T0::send_xcm(destination, message) {
            Err(Error::CannotReachDestination(d, m)) => <(T1, T2, T3,) as SendXcm>::send_xcm(d, m),
            other => other,
        }
    }
}

/// A chain of 5 senders.
impl<T0: SendXcm, T1: SendXcm, T2: SendXcm, T3: SendXcm, T4: SendXcm> SendXcm for (T0, T1, T2, T3, T4,) {
    open spec fn sends(destination: MultiLocation, message: Xcm<()>, result: XcmResult) -> bool {
        exists|a: XcmResult|
            #[trigger] T0::sends(destination, message, a) && hand_on(a, |d, m, r| <(T1, T2, T3, T4,) as SendXcm>::sends(d, m, r), result)
    }

    fn send_xcm(destination: MultiLocation, message: Xcm<()>) -> (result: XcmResult) {
        match T0::send_xcm(destination, message) {
            Err(Error::CannotReachDestination(d, m)) => <(T1, T2, T3, T4,) as SendXcm>::send_xcm(d, m),
            other => other,
        }
    }
}

/// A chain of 6 senders.
impl<T0: SendXcm, T1: SendXcm, T2: SendXcm, T3: SendXcm, T4: SendXcm, T5: SendXcm> SendXcm for (T0, T1, T2, T3, T4, T5,) {
    open spec fn sends(destination: MultiLocation, message: Xcm<()>, result: XcmResult) -> bool {
        exists|a: XcmResult|
            #[trigger] T0::sends(destination, message, a) && hand_on(a, |d, m, r| <(T1, T2, T3, T4, T5,) as SendXcm>::sends(d, m, r), result)
    }

    fn send_xcm(destination: MultiLocation, message: Xcm<()>) -> (result: XcmResult) {
        match T0::send_xcm(destination, message) {
            Err(Error::CannotReachDestination(d, m)) => <(T1, T2, T3, T4, T5,) as SendXcm>::send_xcm(d, m),
            other => other,
        }
    }
}

/// A chain of 7 senders.
impl<T0: SendXcm, T1: SendXcm, T2: SendXcm, T3: SendXcm, T4: SendXcm, T5: SendXcm, T6: SendXcm> SendXcm for (T0, T1, T2, T3, T4, T5, T6,) {
    open spec fn sends(destination: MultiLocation, message: Xcm<()>, result: XcmResult) -> bool {
        exists|a: XcmResult|
            #[trigger] T0::sends(destination, message, a) && hand_on(a, |d, m, r| <(T1, T2, T3, T4, T5, T6,) as SendXcm>::sends(d, m, r), result)
    }

    fn send_xcm(destination: MultiLocation, message: Xcm<()>) -> (result: XcmResult) {
        match T0::send_xcm(destination, message) {
            Err(Error::CannotReachDestination(d, m)) => <(T1, T2, T3, T4, T5, T6,) as SendXcm>::send_xcm(d, m),
            other => other,
        }
    }
}

/// A chain of 8 senders.
impl<T0: SendXcm, T1: SendXcm, T2: SendXcm, T3: SendXcm, T4: SendXcm, T5: SendXcm, T6: SendXcm, T7: SendXcm> SendXcm for (T0, T1, T2, T3, T4, T5, T6, T7,) {
    open spec fn sends(destination: MultiLocation, message: Xcm<()>, result: XcmResult) -> bool {
        exists|a: XcmResult|
            #[trigger] T0::sends(destination, message, a) && hand_on(a, |d, m, r| <(T1, T2, T3, T4, T5, T6, T7,) as SendXcm>::sends(d, m, r), result)
    }

    fn send_xcm(destination: MultiLocation, message: Xcm<()>) -> (result: XcmResult) {
        match T0::send_xcm(destination, message) {
            Err(Error::CannotReachDestination(d, m)) => <(T1, T2, T3, T4, T5, T6, T7,) as SendXcm>::send_xcm(d, m),
            other => other,
        }
    }
}

/// A chain of 9 senders.
impl<T0: SendXcm, T1: SendXcm, T2: SendXcm, T3: SendXcm, T4: SendXcm, T5: SendXcm, T6: SendXcm, T7: SendXcm, T8: SendXcm> SendXcm for (T0, T1, T2, T3, T4, T5, T6, T7, T8,) {
    open spec fn sends(destination: MultiLocation, message: Xcm<()>, result: XcmResult) -> bool {
        exists|a: XcmResult|
            #[trigger] T0::sends(destination, message, a) && hand_on(a, |d, m, r| <(T1, T2, T3, T4, T5, T6, T7, T8,) as SendXcm>::sends(d, m, r), result)
    }

    fn send_xcm(destination: MultiLocation, message: Xcm<()>) -> (result: XcmResult) {
        match T0::send_xcm(destination, message) {
            Err(Error::CannotReachDestination(d, m)) => <(T1, T2, T3, T4, T5, T6, T7, T8,) as SendXcm>::send_xcm(d, m),
            other => other,
        }
    }
}

/// A chain of 10 senders.
impl<T0: SendXcm, T1: SendXcm, T2: SendXcm, T3: SendXcm, T4: SendXcm, T5: SendXcm, T6: SendXcm, T7: SendXcm, T8: SendXcm, T9: SendXcm> SendXcm for (T0, T1, T2, T3, T4, T5, T6, T7, T8, T9,) {
    open spec fn sends(destination: MultiLocation, message: Xcm<()>, result: XcmResult) -> bool {
        exists|a: XcmResult|
            #[trigger] T0::sends(destination, message, a) && hand_on(a, |d, m, r| <(T1, T2, T3, T4, T5, T6, T7, T8, T9,) as SendXcm>::sends(d, m, r), result)
    }

    fn send_xcm(destination: MultiLocation, message: Xcm<()>) -> (result: XcmResult) {
        match T0::send_xcm(destination, message) {
            Err(Error::CannotReachDestination(d, m)) => <(T1, T2, T3, T4, T5, T6, T7, T8, T9,) as SendXcm>::send_xcm(d, m),
            other => other,
        }
    }
}

/// A chain of 11 senders.
impl<T0: SendXcm, T1: SendXcm, T2: SendXcm, T3: SendXcm, T4: SendXcm, T5: SendXcm, T6: SendXcm, T7: SendXcm, T8: SendXcm, T9: SendXcm, T10: SendXcm> SendXcm for (T0, T1, T2, T3, T4, T5, T6, T7, T8, T9, T10,) {
    open spec fn sends(destination: MultiLocation, message: Xcm<()>, result: XcmResult) -> bool {
        exists|a: XcmResult|
            #[trigger] T0::sends(destination, message, a) && hand_on(a, |d, m, r| <(T1, T2, T3, T4, T5, T6, T7, T8, T9, T10,) as SendXcm>::sends(d, m, r), result)
    }

    fn send_xcm(destination: MultiLocation, message: Xcm<()>) -> (result: XcmResult) {
        match T0::send_xcm(destination, message) {
            Err(Error::CannotReachDestination(d, m)) => <(T1, T2, T3, T4, T5, T6, T7, T8, T9, T10,) as SendXcm>::send_xcm(d, m),
            other => other,
        }
    }
}

/// A chain of 12 senders.
impl<T0: SendXcm, T1: SendXcm, T2: SendXcm, T3: SendXcm, T4: SendXcm, T5: SendXcm, T6: SendXcm, T7: SendXcm, T8: SendXcm, T9: SendXcm, T10: SendXcm, T11: SendXcm> SendXcm for (T0, T1, T2, T3, T4, T5, T6, T7, T8, T9, T10, T11,) {
    open spec fn sends(destination: MultiLocation, message: Xcm<()>, result: XcmResult) -> bool {
        exists|a: XcmResult|
            #[trigger] T0::sends(destination, message, a) && hand_on(a, |d, m, r| <(T1, T2, T3, T4, T5, T6, T7, T8, T9, T10, T11,) as SendXcm>::sends(d, m, r), result)
    }

    fn send_xcm(destination: MultiLocation, message: Xcm<()>) -> (result: XcmResult) {
        match T0::send_xcm(destination, message) {
            Err(Error::CannotReachDestination(d, m)) => <(T1, T2, T3, T4, T5, T6, T7, T8, T9, T10, T11,) as SendXcm>::send_xcm(d, m),
            other => other,
        }
    }
}

/// A chain of 13 senders.
impl<T0: SendXcm, T1: SendXcm, T2: SendXcm, T3: SendXcm, T4: SendXcm, T5: SendXcm, T6: SendXcm, T7: SendXcm, T8: SendXcm, T9: SendXcm, T10: SendXcm, T11: SendXcm, T12: SendXcm> SendXcm for (T0, T1, T2, T3, T4, T5, T6, T7, T8, T9, T10, T11, T12,) {
    open spec fn sends(destination: MultiLocation, message: Xcm<()>, result: XcmResult) -> bool {
        exists|a: XcmResult|
            #[trigger] T0::sends(destination, message, a) && hand_on(a, |d, m, r| <(T1, T2, T3, T4, T5, T6, T7, T8, T9, T10, T11, T12,) as SendXcm>::sends(d, m, r), result)
    }

    fn send_xcm(destination: MultiLocation, message: Xcm<()>) -> (result: XcmResult) {
        match T0::send_xcm(destination, message) {
            Err(Error::CannotReachDestination(d, m)) => <(T1, T2, T3, T4, T5, T6, T7, T8, T9, T10, T11, T12,) as SendXcm>::send_xcm(d, m),
            other => other,
        }
    }
}

/// A chain of 14 senders.
impl<T0: SendXcm, T1: SendXcm, T2: SendXcm, T3: SendXcm, T4: SendXcm, T5: SendXcm, T6: SendXcm, T7: SendXcm, T8: SendXcm, T9: SendXcm, T10: SendXcm, T11: SendXcm, T12: SendXcm, T13: SendXcm> SendXcm for (T0, T1, T2, T3, T4, T5, T6, T7, T8, T9, T10, T11, T12, T13,) {
    open spec fn sends(destination: MultiLocation, message: Xcm<()>, result: XcmResult) -> bool {
        exists|a: XcmResult|
            #[trigger] T0::sends(destination, message, a) && hand_on(a, |d, m, r| <(T1, T2, T3, T4, T5, T6, T7, T8, T9, T10, T11, T12, T13,) as SendXcm>::sends(d, m, r), result)
    }

    fn send_xcm(destination: MultiLocation, message: Xcm<()>) -> (result: XcmResult) {
        match T0::send_xcm(destination, message) {
            Err(Error::CannotReachDestination(d, m)) => <(T1, T2, T3, T4, T5, T6, T7, T8, T9, T10, T11, T12, T13,) as SendXcm>::send_xcm(d, m),
            other => other,
        }
    }
}

/// A chain of 15 senders.
impl<T0: SendXcm, T1: SendXcm, T2: SendXcm, T3: SendXcm, T4: SendXcm, T5: SendXcm, T6: SendXcm, T7: SendXcm, T8: SendXcm, T9: SendXcm, T10: SendXcm, T11: SendXcm, T12: SendXcm, T13: SendXcm, T14: SendXcm> SendXcm for (T0, T1, T2, T3, T4, T5, T6, T7, T8, T9, T10, T11, T12, T13, T14,) {
    open spec fn sends(destination: MultiLocation, message: Xcm<()>, result: XcmResult) -> bool {
        exists|a: XcmResult|
            #[trigger] T0::sends(destination, message, a) && hand_on(a, |d, m, r| <(T1, T2, T3, T4, T5, T6, T7, T8, T9, T10, T11, T12, T13, T14,) as SendXcm>::sends(d, m, r), result)
    }

    fn send_xcm(destination: MultiLocation, message: Xcm<()>) -> (result: XcmResult) {
        match T0::send_xcm(destination, message) {
            Err(Error::CannotReachDestination(d, m)) => <(T1, T2, T3, T4, T5, T6, T7, T8, T9, T10, T11, T12, T13, T14,) as SendXcm>::send_xcm(d, m),
            other => other,
        }
    }
}

/// A chain of 16 senders.
impl<T0: SendXcm, T1: SendXcm, T2: SendXcm, T3: SendXcm, T4: SendXcm, T5: SendXcm, T6: SendXcm, T7: SendXcm, T8: SendXcm, T9: SendXcm, T10: SendXcm, T11: SendXcm, T12: SendXcm, T13: SendXcm, T14: SendXcm, T15: SendXcm> SendXcm for (T0, T1, T2, T3, T4, T5, T6, T7, T8, T9, T10, T11, T12, T13, T14, T15,) {
    open spec fn sends(destination: MultiLocation, message: Xcm<()>, result: XcmResult) -> bool {
        exists|a: XcmResult|
            #[trigger] T0::sends(destination, message, a) && hand_on(a, |d, m, r| <(T1, T2, T3, T4, T5, T6, T7, T8, T9, T10, T11, T12, T13, T14, T15,) as SendXcm>::sends(d, m, r), result)
    }

    fn send_xcm(destination: MultiLocation, message: Xcm<()>) -> (result: XcmResult) {
        match T0::send_xcm(destination, message) {
            Err(Error::CannotReachDestination(d, m)) => <(T1, T2, T3, T4, T5, T6, T7, T8, T9, T10, T11, T12, T13, T14, T15,) as SendXcm>::send_xcm(d, m),
            other => other,
        }
    }
}

/// A chain of 17 senders.
impl<T0: SendXcm, T1: SendXcm, T2: SendXcm, T3: SendXcm, T4: SendXcm, T5: SendXcm, T6: SendXcm, T7: SendXcm, T8: SendXcm, T9: SendXcm, T10: SendXcm, T11: SendXcm, T12: SendXcm, T13: SendXcm, T14: SendXcm, T15: SendXcm, T16: SendXcm> SendXcm for (T0, T1, T2, T3, T4, T5, T6, T7, T8, T9, T10, T11, T12, T13, T14, T15, T16,) {
    open spec fn sends(destination: MultiLocation, message: Xcm<()>, result: XcmResult) -> bool {
        exists|a: XcmResult|
            #[trigger] T0::sends(destination, message, a) && hand_on(a, |d, m, r| <(T1, T2, T3, T4, T5, T6, T7, T8, T9, T10, T11, T12, T13, T14, T15, T16,) as SendXcm>::sends(d, m, r), result)
    }

    fn send_xcm(destination: MultiLocation, message: Xcm<()>) -> (result: XcmResult) {
        match T0::send_xcm(destination, message) {
            Err(Error::CannotReachDestination(d, m)) => <(T1, T2, T3, T4, T5, T6, T7, T8, T9, T10, T11, T12, T13, T14, T15, T16,) as SendXcm>::send_xcm(d, m),
            other => other,
        }
    }
}

/// A chain of 18 senders.
impl<T0: SendXcm, T1: SendXcm, T2: SendXcm, T3: SendXcm, T4: SendXcm, T5: SendXcm, T6: SendXcm, T7: SendXcm, T8: SendXcm, T9: SendXcm, T10: SendXcm, T11: SendXcm, T12: SendXcm, T13: SendXcm, T14: SendXcm, T15: SendXcm, T16: SendXcm, T17: SendXcm> SendXcm for (T0, T1, T2, T3, T4, T5, T6, T7, T8, T9, T10, T11, T12, T13, T14, T15, T16, T17,) {
    open spec fn sends(destination: MultiLocation, message: Xcm<()>, result: XcmResult) -> bool {
        exists|a: XcmResult|
            #[trigger] T0::sends(destination, message, a) && hand_on(a, |d, m, r| <(T1, T2, T3, T4, T5, T6, T7, T8, T9, T10, T11, T12, T13, T14, T15, T16, T17,) as SendXcm>::sends(d, m, r), result)
    }

    fn send_xcm(destination: MultiLocation, message: Xcm<()>) -> (result: XcmResult) {
        match T0::send_xcm(destination, message) {
            Err(Error::CannotReachDestination(d, m)) => <(T1, T2, T3, T4, T5, T6, T7, T8, T9, T10, T11, T12, T13, T14, T15, T16, T17,) as SendXcm>::send_xcm(d, m),
            other => other,
        }
    }
}

/// A chain of 19 senders.
impl<T0: SendXcm, T1: SendXcm, T2: SendXcm, T3: SendXcm, T4: SendXcm, T5: SendXcm, T6: SendXcm, T7: SendXcm, T8: SendXcm, T9: SendXcm, T10: SendXcm, T11: SendXcm, T12: SendXcm, T13: SendXcm, T14: SendXcm, T15: SendXcm, T16: SendXcm, T17: SendXcm, T18: SendXcm> SendXcm for (T0, T1, T2, T3, T4, T5, T6, T7, T8, T9, T10, T11, T12, T13, T14, T15, T16, T17, T18,) {
    open spec fn sends(destination: MultiLocation, message: Xcm<()>, result: XcmResult) -> bool {
        exists|a: XcmResult|
            #[trigger] T0::sends(destination, message, a) && hand_on(a, |d, m, r| <(T1, T2, T3, T4, T5, T6, T7, T8, T9, T10, T11, T12, T13, T14, T15, T16, T17, T18,) as SendXcm>::sends(d, m, r), result)
    }

    fn send_xcm(destination: MultiLocation, message: Xcm<()>) -> (result: XcmResult) {
        match T0::send_xcm(destination, message) {
            Err(Error::CannotReachDestination(d, m)) => <(T1, T2, T3, T4, T5, T6, T7, T8, T9, T10, T11, T12, T13, T14, T15, T16, T17, T18,) as SendXcm>::send_xcm(d, m),
            other => other,
        }
    }
}

/// A chain of 20 senders.
impl<T0: SendXcm, T1: SendXcm, T2: SendXcm, T3: SendXcm, T4: SendXcm, T5: SendXcm, T6: SendXcm, T7: SendXcm, T8: SendXcm, T9: SendXcm, T10: SendXcm, T11: SendXcm, T12: SendXcm, T13: SendXcm, T14: SendXcm, T15: SendXcm, T16: SendXcm, T17: SendXcm, T18: SendXcm, T19: SendXcm> SendXcm for (T0, T1, T2, T3, T4, T5, T6, T7, T8, T9, T10, T11, T12, T13, T14, T15, T16, T17, T18, T19,) {
    open spec fn sends(destination: MultiLocation, message: Xcm<()>, result: XcmResult) -> bool {
        exists|a: XcmResult|
            #[trigger] T0::sends(destination, message, a) && hand_on(a, |d, m, r| <(T1, T2, T3, T4, T5, T6, T7, T8, T9, T10, T11, T12, T13, T14, T15, T16, T17, T18, T19,) as SendXcm>::sends(d, m, r), result)
    }

    fn send_xcm(destination: MultiLocation, message: Xcm<()>) -> (result: XcmResult) {
        match T0::send_xcm(destination, message) {
            Err(Error::CannotReachDestination(d, m)) => <(T1, T2, T3, T4, T5, T6, T7, T8, T9, T10, T11, T12, T13, T14, T15, T16, T17, T18, T19,) as SendXcm>::send_xcm(d, m),
            other => other,
        }
    }
}

/// A chain of 21 senders.
impl<T0: SendXcm, T1: SendXcm, T2: SendXcm, T3: SendXcm, T4: SendXcm, T5: SendXcm, T6: SendXcm, T7: SendXcm, T8: SendXcm, T9: SendXcm, T10: SendXcm, T11: SendXcm, T12: SendXcm, T13: SendXcm, T14: SendXcm, T15: SendXcm, T16: SendXcm, T17: SendXcm, T18: SendXcm, T19: SendXcm, T20: SendXcm> SendXcm for (T0, T1, T2, T3, T4, T5, T6, T7, T8, T9, T10, T11, T12, T13, T14, T15, T16, T17, T18, T19, T20,) {
    open spec fn sends(destination: MultiLocation, message: Xcm<()>, result: XcmResult) -> bool {
        exists|a: XcmResult|
            #[trigger] T0::sends(destination, message, a) && hand_on(a, |d, m, r| <(T1, T2, T3, T4, T5, T6, T7, T8, T9, T10, T11, T12, T13, T14, T15, T16, T17, T18, T19, T20,) as SendXcm>::sends(d, m, r), result)
    }

    fn send_xcm(destination: MultiLocation, message: Xcm<()>) -> (result: XcmResult) {
        match T0::send_xcm(destination, message) {
            Err(Error::CannotReachDestination(d, m)) => <(T1, T2, T3, T4, T5, T6, T7, T8, T9, T10, T11, T12, T13, T14, T15, T16, T17, T18, T19, T20,) as SendXcm>::send_xcm(d, m),
            other => other,
        }
    }
}

/// A chain of 22 senders.
impl<T0: SendXcm, T1: SendXcm, T2: SendXcm, T3: SendXcm, T4: SendXcm, T5: SendXcm, T6: SendXcm, T7: SendXcm, T8: SendXcm, T9: SendXcm, T10: SendXcm, T11: SendXcm, T12: SendXcm, T13: SendXcm, T14: SendXcm, T15: SendXcm, T16: SendXcm, T17: SendXcm, T18: SendXcm, T19: SendXcm, T20: SendXcm, T21: SendXcm> SendXcm for (T0, T1, T2, T3, T4, T5, T6, T7, T8, T9, T10, T11, T12, T13, T14, T15, T16, T17, T18, T19, T20, T21,) {
    open spec fn sends(destination: MultiLocation, message: Xcm<()>, result: XcmResult) -> bool {
        exists|a: XcmResult|
            #[trigger] T0::sends(destination, message, a) && hand_on(a, |d, m, r| <(T1, T2, T3, T4, T5, T6, T7, T8, T9, T10, T11, T12, T13, T14, T15, T16, T17, T18, T19, T20, T21,) as SendXcm>::sends(d, m, r), result)
    }

    fn send_xcm(destination: MultiLocation, message: Xcm<()>) -> (result: XcmResult) {
        match T0::send_xcm(destination, message) {
            Err(Error::CannotReachDestination(d, m)) => <(T1, T2, T3, T4, T5, T6, T7, T8, T9, T10, T11, T12, T13, T14, T15, T16, T17, T18, T19, T20, T21,) as SendXcm>::send_xcm(d, m),
            other => other,
        }
    }
}

/// A chain of 23 senders.
impl<T0: SendXcm, T1: SendXcm, T2: SendXcm, T3: SendXcm, T4: SendXcm, T5: SendXcm, T6: SendXcm, T7: SendXcm, T8: SendXcm, T9: SendXcm, T10: SendXcm, T11: SendXcm, T12: SendXcm, T13: SendXcm, T14: SendXcm, T15: SendXcm, T16: SendXcm, T17: SendXcm, T18: SendXcm, T19: SendXcm, T20: SendXcm, T21: SendXcm, T22: SendXcm> SendXcm for (T0, T1, T2, T3, T4, T5, T6, T7, T8, T9, T10, T11, T12, T13, T14, T15, T16, T17, T18, T19, T20, T21, T22,) {
    open spec fn sends(destination: MultiLocation, message: Xcm<()>, result: XcmResult) -> bool {
        exists|a: XcmResult|
            #[trigger] T0::sends(destination, message, a) && hand_on(a, |d, m, r| <(T1, T2, T3, T4, T5, T6, T7, T8, T9, T10, T11, T12, T13, T14, T15, T16, T17, T18, T19, T20, T21, T22,) as SendXcm>::sends(d, m, r), result)
    }

    fn send_xcm(destination: MultiLocation, message: Xcm<()>) -> (result: XcmResult) {
        match T0::send_xcm(destination, message) {
            Err(Error::CannotReachDestination(d, m)) => <(T1, T2, T3, T4, T5, T6, T7, T8, T9, T10, T11, T12, T13, T14, T15, T16, T17, T18, T19, T20, T21, T22,) as SendXcm>::send_xcm(d, m),
            other => other,
        }
    }
}

/// A chain of 24 senders.
impl<T0: SendXcm, T1: SendXcm, T2: SendXcm, T3: SendXcm, T4: SendXcm, T5: SendXcm, T6: SendXcm, T7: SendXcm, T8: SendXcm, T9: SendXcm, T10: SendXcm, T11: SendXcm, T12: SendXcm, T13: SendXcm, T14: SendXcm, T15: SendXcm, T16: SendXcm, T17: SendXcm, T18: SendXcm, T19: SendXcm, T20: SendXcm, T21: SendXcm, T22: SendXcm, T23: SendXcm> SendXcm for (T0, T1, T2, T3, T4, T5, T6, T7, T8, T9, T10, T11, T12, T13, T14, T15, T16, T17, T18, T19, T20, T21, T22, T23,) {
    open spec fn sends(destination: MultiLocation, message: Xcm<()>, result: XcmResult) -> bool {
        exists|a: XcmResult|
            #[trigger] T0::sends(destination, message, a) && hand_on(a, |d, m, r| <(T1, T2, T3, T4, T5, T6, T7, T8, T9, T10, T11, T12, T13, T14, T15, T16, T17, T18, T19, T20, T21, T22, T23,) as SendXcm>::sends(d, m, r), result)
    }

    fn send_xcm(destination: MultiLocation, message: Xcm<()>) -> (result: XcmResult) {
        match T0::send_xcm(destination, message) {
            Err(Error::CannotReachDestination(d, m)) => <(T1, T2, T3, T4, T5, T6, T7, T8, T9, T10, T11, T12, T13, T14, T15, T16, T17, T18, T19, T20, T21, T22, T23,) as SendXcm>::send_xcm(d, m),
            other => other,
        }
    }
}

/// A chain of 25 senders.
impl<T0: SendXcm, T1: SendXcm, T2: SendXcm, T3: SendXcm, T4: SendXcm, T5: SendXcm, T6: SendXcm, T7: SendXcm, T8: SendXcm, T9: SendXcm, T10: SendXcm, T11: SendXcm, T12: SendXcm, T13: SendXcm, T14: SendXcm, T15: SendXcm, T16: SendXcm, T17: SendXcm, T18: SendXcm, T19: SendXcm, T20: SendXcm, T21: SendXcm, T22: SendXcm, T23: SendXcm, T24: SendXcm> SendXcm for (T0, T1, T2, T3, T4, T5, T6, T7, T8, T9, T10, T11, T12, T13, T14, T15, T16, T17, T18, T19, T20, T21, T22, T23, T24,) {
    open spec fn sends(destination: MultiLocation, message: Xcm<()>, result: XcmResult) -> bool {
        exists|a: XcmResult|
            #[trigger] T0::sends(destination, message, a) && hand_on(a, |d, m, r| <(T1, T2, T3, T4, T5, T6, T7, T8, T9, T10, T11, T12, T13, T14, T15, T16, T17, T18, T19, T20, T21, T22, T23, T24,) as SendXcm>::sends(d, m, r), result)
    }

    fn send_xcm(destination: MultiLocation, message: Xcm<()>) -> (result: XcmResult) {
        match T0::send_xcm(destination, message) {
            Err(Error::CannotReachDestination(d, m)) => <(T1, T2, T3, T4, T5, T6, T7, T8, T9, T10, T11, T12, T13, T14, T15, T16, T17, T18, T19, T20, T21, T22, T23, T24,) as SendXcm>::send_xcm(d, m),
            other => other,
        }
    }
}

/// A chain of 26 senders.
impl<T0: SendXcm, T1: SendXcm, T2: SendXcm, T3: SendXcm, T4: SendXcm, T5: SendXcm, T6: SendXcm, T7: SendXcm, T8: SendXcm, T9: SendXcm, T10: SendXcm, T11: SendXcm, T12: SendXcm, T13: SendXcm, T14: SendXcm, T15: SendXcm, T16: SendXcm, T17: SendXcm, T18: SendXcm, T19: SendXcm, T20: SendXcm, T21: SendXcm, T22: SendXcm, T23: SendXcm, T24: SendXcm, T25: SendXcm> SendXcm for (T0, T1, T2, T3, T4, T5, T6, T7, T8, T9, T10, T11, T12, T13, T14, T15, T16, T17, T18, T19, T20, T21, T22, T23, T24, T25,) {
    open spec fn sends(destination: MultiLocation, message: Xcm<()>, result: XcmResult) -> bool {
        exists|a: XcmResult|
            #[trigger] T0::sends(destination, message, a) && hand_on(a, |d, m, r| <(T1, T2, T3, T4, T5, T6, T7, T8, T9, T10, T11, T12, T13, T14, T15, T16, T17, T18, T19, T20, T21, T22, T23, T24, T25,) as SendXcm>::sends(d, m, r), result)
    }

    fn send_xcm(destination: MultiLocation, message: Xcm<()>) -> (result: XcmResult) {
        match T0::send_xcm(destination, message) {
            Err(Error::CannotReachDestination(d, m)) => <(T1, T2, T3, T4, T5, T6, T7, T8, T9, T10, T11, T12, T13, T14, T15, T16, T17, T18, T19, T20, T21, T22, T23, T24, T25,) as SendXcm>::send_xcm(d, m),
            other => other,
        }
    }
}

/// A chain of 27 senders.
impl<T0: SendXcm, T1: SendXcm, T2: SendXcm, T3: SendXcm, T4: SendXcm, T5: SendXcm, T6: SendXcm, T7: SendXcm, T8: SendXcm, T9: SendXcm, T10: SendXcm, T11: SendXcm, T12: SendXcm, T13: SendXcm, T14: SendXcm, T15: SendXcm, T16: SendXcm, T17: SendXcm, T18: SendXcm, T19: SendXcm, T20: SendXcm, T21: SendXcm, T22: SendXcm, T23: SendXcm, T24: SendXcm, T25: SendXcm, T26: SendXcm> SendXcm for (T0, T1, T2, T3, T4, T5, T6, T7, T8, T9, T10, T11, T12, T13, T14, T15, T16, T17, T18, T19, T20, T21, T22, T23, T24, T25, T26,) {
    open spec fn sends(destination: MultiLocation, message: Xcm<()>, result: XcmResult) -> bool {
        exists|a: XcmResult|
            #[trigger] T0::sends(destination, message, a) && hand_on(a, |d, m, r| <(T1, T2, T3, T4, T5, T6, T7, T8, T9, T10, T11, T12, T13, T14, T15, T16, T17, T18, T19, T20, T21, T22, T23, T24, T25, T26,) as SendXcm>::sends(d, m, r), result)
    }

    fn send_xcm(destination: MultiLocation, message: Xcm<()>) -> (result: XcmResult) {
        match T0::send_xcm(destination, message) {
            Err(Error::CannotReachDestination(d, m)) => <(T1, T2, T3, T4, T5, T6, T7, T8, T9, T10, T11, T12, T13, T14, T15, T16, T17, T18, T19, T20, T21, T22, T23, T24, T25, T26,) as SendXcm>::send_xcm(d, m),
            other => other,
        }
    }
}

/// A chain of 28 senders.
impl<T0: SendXcm, T1: SendXcm, T2: SendXcm, T3: SendXcm, T4: SendXcm, T5: SendXcm, T6: SendXcm, T7: SendXcm, T8: SendXcm, T9: SendXcm, T10: SendXcm, T11: SendXcm, T12: SendXcm, T13: SendXcm, T14: SendXcm, T15: SendXcm, T16: SendXcm, T17: SendXcm, T18: SendXcm, T19: SendXcm, T20: SendXcm, T21: SendXcm, T22: SendXcm, T23: SendXcm, T24: SendXcm, T25: SendXcm, T26: SendXcm, T27: SendXcm> SendXcm for (T0, T1, T2, T3, T4, T5, T6, T7, T8, T9, T10, T11, T12, T13, T14, T15, T16, T17, T18, T19, T20, T21, T22, T23, T24, T25, T26, T27,) {
    open spec fn sends(destination: MultiLocation, message: Xcm<()>, result: XcmResult) -> bool {
        exists|a: XcmResult|
            #[trigger] T0::sends(destination, message, a) && hand_on(a, |d, m, r| <(T1, T2, T3, T4, T5, T6, T7, T8, T9, T10, T11, T12, T13, T14, T15, T16, T17, T18, T19, T20, T21, T22, T23, T24, T25, T26, T27,) as SendXcm>::sends(d, m, r), result)
    }

    fn send_xcm(destination: MultiLocation, message: Xcm<()>) -> (result: XcmResult) {
        match T0::send_xcm(destination, message) {
            Err(Error::CannotReachDestination(d, m)) => <(T1, T2, T3, T4, T5, T6, T7, T8, T9, T10, T11, T12, T13, T14, T15, T16, T17, T18, T19, T20, T21, T22, T23, T24, T25, T26, T27,) as SendXcm>::send_xcm(d, m),
            other => other,
        }
    }
}

/// A chain of 29 senders.
impl<T0: SendXcm, T1: SendXcm, T2: SendXcm, T3: SendXcm, T4: SendXcm, T5: SendXcm, T6: SendXcm, T7: SendXcm, T8: SendXcm, T9: SendXcm, T10: SendXcm, T11: SendXcm, T12: SendXcm, T13: SendXcm, T14: SendXcm, T15: SendXcm, T16: SendXcm, T17: SendXcm, T18: SendXcm, T19: SendXcm, T20: SendXcm, T21: SendXcm, T22: SendXcm, T23: SendXcm, T24: SendXcm, T25: SendXcm, T26: SendXcm, T27: SendXcm, T28: SendXcm> SendXcm for (T0, T1, T2, T3, T4, T5, T6, T7, T8, T9, T10, T11, T12, T13, T14, T15, T16, T17, T18, T19, T20, T21, T22, T23, T24, T25, T26, T27, T28,) {
    open spec fn sends(destination: MultiLocation, message: Xcm<()>, result: XcmResult) -> bool {
        exists|a: XcmResult|
            #[trigger] T0::sends(destination, message, a) && hand_on(a, |d, m, r| <(T1, T2, T3, T4, T5, T6, T7, T8, T9, T10, T11, T12, T13, T14, T15, T16, T17, T18, T19, T20, T21, T22, T23, T24, T25, T26, T27, T28,) as SendXcm>::sends(d, m, r), result)
    }

    fn send_xcm(destination: MultiLocation, message: Xcm<()>) -> (result: XcmResult) {
        match T0::send_xcm(destination, message) {
            Err(Error::CannotReachDestination(d, m)) => <(T1, T2, T3, T4, T5, T6, T7, T8, T9, T10, T11, T12, T13, T14, T15, T16, T17, T18, T19, T20, T21, T22, T23, T24, T25, T26, T27, T28,) as SendXcm>::send_xcm(d, m),
            other => other,
        }
    }
}

/// A chain of 30 senders.
impl<T0: SendXcm, T1: SendXcm, T2: SendXcm, T3: SendXcm, T4: SendXcm, T5: SendXcm, T6: SendXcm, T7: SendXcm, T8: SendXcm, T9: SendXcm, T10: SendXcm, T11: SendXcm, T12: SendXcm, T13: SendXcm, T14: SendXcm, T15: SendXcm, T16: SendXcm, T17: SendXcm, T18: SendXcm, T19: SendXcm, T20: SendXcm, T21: SendXcm, T22: SendXcm, T23: SendXcm, T24: SendXcm, T25: SendXcm, T26: SendXcm, T27: SendXcm, T28: SendXcm, T29: SendXcm> SendXcm for (T0, T1, T2, T3, T4, T5, T6, T7, T8, T9, T10, T11, T12, T13, T14, T15, T16, T17, T18, T19, T20, T21, T22, T23, T24, T25, T26, T27, T28, T29,) {
    open spec fn sends(destination: MultiLocation, message: Xcm<()>, result: XcmResult) -> bool {
        exists|a: XcmResult|
            #[trigger] T0::sends(destination, message, a) && hand_on(a, |d, m, r| <(T1, T2, T3, T4, T5, T6, T7, T8, T9, T10, T11, T12, T13, T14, T15, T16, T17, T18, T19, T20, T21, T22, T23, T24, T25, T26, T27, T28, T29,) as SendXcm>::sends(d, m, r), result)
    }

    fn send_xcm(destination: MultiLocation, message: Xcm<()>) -> (result: XcmResult) {
        match T0::send_xcm(destination, message) {
            Err(Error::CannotReachDestination(d, m)) => <(T1, T2, T3, T4, T5, T6, T7, T8, T9, T10, T11, T12, T13, T14, T15, T16, T17, T18, T19, T20, T21, T22, T23, T24, T25, T26, T27, T28, T29,) as SendXcm>::send_xcm(d, m),
            other => other,
        }
    }
}

/// A tuple of one scheduler.
impl<T0: ParachainCleanup> ParachainCleanup for (T0,) {
    open spec fn cleanups(id: ParaId) -> Seq<(ParaModule, ParaId)> {
        T0::cleanups(id) + <() as ParachainCleanup>::cleanups(id)
    }

    fn schedule_para_cleanup(id: ParaId) -> (steps: Vec<(ParaModule, ParaId)>) {
        let mut steps = T0::schedule_para_cleanup(id);
        let mut rest = <() as ParachainCleanup>::schedule_para_cleanup(id);
        steps.append(&mut rest);
        steps
    }
}

/// A tuple of 2 schedulers.
impl<T0: ParachainCleanup, T1: ParachainCleanup> ParachainCleanup for (T0, T1,) {
    open spec fn cleanups(id: ParaId) -> Seq<(ParaModule, ParaId)> {
        T0::cleanups(id) + <(T1,) as ParachainCleanup>::cleanups(id)
    }

    fn schedule_para_cleanup(id: ParaId) -> (steps: Vec<(ParaModule, ParaId)>) {
        let mut steps = T0::schedule_para_cleanup(id);
        let mut rest = <(T1,) as ParachainCleanup>::schedule_para_cleanup(id);
        steps.append(&mut rest);
        steps
    }
}

/// A tuple of 3 schedulers.
impl<T0: ParachainCleanup, T1: ParachainCleanup, T2: ParachainCleanup> ParachainCleanup for (T0, T1, T2,) {
    open spec fn cleanups(id: ParaId) -> Seq<(ParaModule, ParaId)> {
        T0::cleanups(id) + <(T1, T2,) as ParachainCleanup>::cleanups(id)
    }

    fn schedule_para_cleanup(id: ParaId) -> (steps: Vec<(ParaModule, ParaId)>) {
        let mut steps = T0::schedule_para_cleanup(id);
        let mut rest = <(T1, T2,) as ParachainCleanup>::schedule_para_cleanup(id);
        steps.append(&mut rest);
        steps
    }
}

/// A tuple of 4 schedulers.
impl<T0: ParachainCleanup, T1: ParachainCleanup, T2: ParachainCleanup, T3: ParachainCleanup> ParachainCleanup for (T0, T1, T2, T3,) {
    open spec fn cleanups(id: ParaId) -> Seq<(ParaModule, ParaId)> {
        T0::cleanups(id) + <(T1, T2, T3,) as ParachainCleanup>::cleanups(id)
    }

    fn schedule_para_cleanup(id: ParaId) -> (steps: Vec<(ParaModule, ParaId)>) {
        let mut steps = T0::schedule_para_cleanup(id);
        let mut rest = <(T1, T2, T3,) as ParachainCleanup>::schedule_para_cleanup(id);
        steps.append(&mut rest);
        steps
    }
}

/// A tuple of 5 schedulers.
impl<T0: ParachainCleanup, T1: ParachainCleanup, T2: ParachainCleanup, T3: ParachainCleanup, T4: ParachainCleanup> ParachainCleanup for (T0, T1, T2, T3, T4,) {
    open spec fn cleanups(id: ParaId) -> Seq<(ParaModule, ParaId)> {
        T0::cleanups(id) + <(T1, T2, T3, T4,) as ParachainCleanup>::cleanups(id)
    }

    fn schedule_para_cleanup(id: ParaId) -> (steps: Vec<(ParaModule, ParaId)>) {
        let mut steps = T0::schedule_para_cleanup(id);
        let mut rest = <(T1, T2, T3, T4,) as ParachainCleanup>::schedule_para_cleanup(id);
        steps.append(&mut rest);
        steps
    }
}

/// A tuple of 6 schedulers.
impl<T0: ParachainCleanup, T1: ParachainCleanup, T2: ParachainCleanup, T3: ParachainCleanup, T4: ParachainCleanup, T5: ParachainCleanup> ParachainCleanup for (T0, T1, T2, T3, T4, T5,) {
    open spec fn cleanups(id: ParaId) -> Seq<(ParaModule, ParaId)> {
        T0::cleanups(id) + <(T1, T2, T3, T4, T5,) as ParachainCleanup>::cleanups(id)
    }

    fn schedule_para_cleanup(id: ParaId) -> (steps: Vec<(ParaModule, ParaId)>) {
        let mut steps = T0::schedule_para_cleanup(id);
        let mut rest = <(T1, T2, T3, T4, T5,) as ParachainCleanup>::schedule_para_cleanup(id);
        steps.append(&mut rest);
        steps
    }
}

/// A tuple of 7 schedulers.
impl<T0: ParachainCleanup, T1: ParachainCleanup, T2: ParachainCleanup, T3: ParachainCleanup, T4: ParachainCleanup, T5: ParachainCleanup, T6: ParachainCleanup> ParachainCleanup for (T0, T1, T2, T3, T4, T5, T6,) {
    open spec fn cleanups(id: ParaId) -> Seq<(ParaModule, ParaId)> {
        T0::cleanups(id) + <(T1, T2, T3, T4, T5, T6,) as ParachainCleanup>::cleanups(id)
    }

    fn schedule_para_cleanup(id: ParaId) -> (steps: Vec<(ParaModule, ParaId)>) {
        let mut steps = T0::schedule_para_cleanup(id);
        let mut rest = <(T1, T2, T3, T4, T5, T6,) as ParachainCleanup>::schedule_para_cleanup(id);
        steps.append(&mut rest);
        steps
    }
}

/// A tuple of 8 schedulers.
impl<T0: ParachainCleanup, T1: ParachainCleanup, T2: ParachainCleanup, T3: ParachainCleanup, T4: ParachainCleanup, T5: ParachainCleanup, T6: ParachainCleanup, T7: ParachainCleanup> ParachainCleanup for (T0, T1, T2, T3, T4, T5, T6, T7,) {
    open spec fn cleanups(id: ParaId) -> Seq<(ParaModule, ParaId)> {
        T0::cleanups(id) + <(T1, T2, T3, T4, T5, T6, T7,) as ParachainCleanup>::cleanups(id)
    }

    fn schedule_para_cleanup(id: ParaId) -> (steps: Vec<(ParaModule, ParaId)>) {
        let mut steps = T0::schedule_para_cleanup(id);
        let mut rest = <(T1, T2, T3, T4, T5, T6, T7,) as ParachainCleanup>::schedule_para_cleanup(id);
        steps.append(&mut rest);
        steps
    }
}

/// A tuple of 9 schedulers.
impl<T0: ParachainCleanup, T1: ParachainCleanup, T2: ParachainCleanup, T3: ParachainCleanup, T4: ParachainCleanup, T5: ParachainCleanup, T6: ParachainCleanup, T7: ParachainCleanup, T8: ParachainCleanup> ParachainCleanup for (T0, T1, T2, T3, T4, T5, T6, T7, T8,) {
    open spec fn cleanups(id: ParaId) -> Seq<(ParaModule, ParaId)> {
        T0::cleanups(id) + <(T1, T2, T3, T4, T5, T6, T7, T8,) as ParachainCleanup>::cleanups(id)
    }

    fn schedule_para_cleanup(id: ParaId) -> (steps: Vec<(ParaModule, ParaId)>) {
        let mut steps = T0::schedule_para_cleanup(id);
        let mut rest = <(T1, T2, T3, T4, T5, T6, T7, T8,) as ParachainCleanup>::schedule_para_cleanup(id);
        steps.append(&mut rest);
        steps
    }
}

/// A tuple of 10 schedulers.
impl<T0: ParachainCleanup, T1: ParachainCleanup, T2: ParachainCleanup, T3: ParachainCleanup, T4: ParachainCleanup, T5: ParachainCleanup, T6: ParachainCleanup, T7: ParachainCleanup, T8: ParachainCleanup, T9: ParachainCleanup> ParachainCleanup for (T0, T1, T2, T3, T4, T5, T6, T7, T8, T9,) {
    open spec fn cleanups(id: ParaId) -> Seq<(ParaModule, ParaId)> {
        T0::cleanups(id) + <(T1, T2, T3, T4, T5, T6, T7, T8, T9,) as ParachainCleanup>::cleanups(id)
    }

    fn schedule_para_cleanup(id: ParaId) -> (steps: Vec<(ParaModule, ParaId)>) {
        let mut steps = T0::schedule_para_cleanup(id);
        let mut rest = <(T1, T2, T3, T4, T5, T6, T7, T8, T9,) as ParachainCleanup>::schedule_para_cleanup(id);
        steps.append(&mut rest);
        steps
    }
}

/// A tuple of 11 schedulers.
impl<T0: ParachainCleanup, T1: ParachainCleanup, T2: ParachainCleanup, T3: ParachainCleanup, T4: ParachainCleanup, T5: ParachainCleanup, T6: ParachainCleanup, T7: ParachainCleanup, T8: ParachainCleanup, T9: ParachainCleanup, T10: ParachainCleanup> ParachainCleanup for (T0, T1, T2, T3, T4, T5, T6, T7, T8, T9, T10,) {
    open spec fn cleanups(id: ParaId) -> Seq<(ParaModule, ParaId)> {
        T0::cleanups(id) + <(T1, T2, T3, T4, T5, T6, T7, T8, T9, T10,) as ParachainCleanup>::cleanups(id)
    }

    fn schedule_para_cleanup(id: ParaId) -> (steps: Vec<(ParaModule, ParaId)>) {
        let mut steps = T0::schedule_para_cleanup(id);
        let mut rest = <(T1, T2, T3, T4, T5, T6, T7, T8, T9, T10,) as ParachainCleanup>::schedule_para_cleanup(id);
        steps.append(&mut rest);
        steps
    }
}

/// A tuple of 12 schedulers.
impl<T0: ParachainCleanup, T1: ParachainCleanup, T2: ParachainCleanup, T3: ParachainCleanup, T4: ParachainCleanup, T5: ParachainCleanup, T6: ParachainCleanup, T7: ParachainCleanup, T8: ParachainCleanup, T9: ParachainCleanup, T10: ParachainCleanup, T11: ParachainCleanup> ParachainCleanup for (T0, T1, T2, T3, T4, T5, T6, T7, T8, T9, T10, T11,) {
    open spec fn cleanups(id: ParaId) -> Seq<(ParaModule, ParaId)> {
        T0::cleanups(id) + <(T1, T2, T3, T4, T5, T6, T7, T8, T9, T10, T11,) as ParachainCleanup>::cleanups(id)
    }

    fn schedule_para_cleanup(id: ParaId) -> (steps: Vec<(ParaModule, ParaId)>) {
        let mut steps = T0::schedule_para_cleanup(id);
        let mut rest = <(T1, T2, T3, T4, T5, T6, T7, T8, T9, T10, T11,) as ParachainCleanup>::schedule_para_cleanup(id);
        steps.append(&mut rest);
        steps
    }
}

/// A tuple of 13 schedulers.
impl<T0: ParachainCleanup, T1: ParachainCleanup, T2: ParachainCleanup, T3: ParachainCleanup, T4: ParachainCleanup, T5: ParachainCleanup, T6: ParachainCleanup, T7: ParachainCleanup, T8: ParachainCleanup, T9: ParachainCleanup, T10: ParachainCleanup, T11: ParachainCleanup, T12: ParachainCleanup> ParachainCleanup for (T0, T1, T2, T3, T4, T5, T6, T7, T8, T9, T10, T11, T12,) {
    open spec fn cleanups(id: ParaId) -> Seq<(ParaModule, ParaId)> {
        T0::cleanups(id) + <(T1, T2, T3, T4, T5, T6, T7, T8, T9, T10, T11, T12,) as ParachainCleanup>::cleanups(id)
    }

    fn schedule_para_cleanup(id: ParaId) -> (steps: Vec<(ParaModule, ParaId)>) {
        let mut steps = T0::schedule_para_cleanup(id);
        let mut rest = <(T1, T2, T3, T4, T5, T6, T7, T8, T9, T10, T11, T12,) as ParachainCleanup>::schedule_para_cleanup(id);
        steps.append(&mut rest);
        steps
    }
}

/// A tuple of 14 schedulers.
impl<T0: ParachainCleanup, T1: ParachainCleanup, T2: ParachainCleanup, T3: ParachainCleanup, T4: ParachainCleanup, T5: ParachainCleanup, T6: ParachainCleanup, T7: ParachainCleanup, T8: ParachainCleanup, T9: ParachainCleanup, T10: ParachainCleanup, T11: ParachainCleanup, T12: ParachainCleanup, T13: ParachainCleanup> ParachainCleanup for (T0, T1, T2, T3, T4, T5, T6, T7, T8, T9, T10, T11, T12, T13,) {
    open spec fn cleanups(id: ParaId) -> Seq<(ParaModule, ParaId)> {
        T0::cleanups(id) + <(T1, T2, T3, T4, T5, T6, T7, T8, T9, T10, T11, T12, T13,) as ParachainCleanup>::cleanups(id)
    }

    fn schedule_para_cleanup(id: ParaId) -> (steps: Vec<(ParaModule, ParaId)>) {
        let mut steps = T0::schedule_para_cleanup(id);
        let mut rest = <(T1, T2, T3, T4, T5, T6, T7, T8, T9, T10, T11, T12, T13,) as ParachainCleanup>::schedule_para_cleanup(id);
        steps.append(&mut rest);
        steps
    }
}

/// A tuple of 15 schedulers.
impl<T0: ParachainCleanup, T1: ParachainCleanup, T2: ParachainCleanup, T3: ParachainCleanup, T4: ParachainCleanup, T5: ParachainCleanup, T6: ParachainCleanup, T7: ParachainCleanup, T8: ParachainCleanup, T9: ParachainCleanup, T10: ParachainCleanup, T11: ParachainCleanup, T12: ParachainCleanup, T13: ParachainCleanup, T14: ParachainCleanup> ParachainCleanup for (T0, T1, T2, T3, T4, T5, T6, T7, T8, T9, T10, T11, T12, T13, T14,) {
    open spec fn cleanups(id: ParaId) -> Seq<(ParaModule, ParaId)> {
        T0::cleanups(id) + <(T1, T2, T3, T4, T5, T6, T7, T8, T9, T10, T11, T12, T13, T14,) as ParachainCleanup>::cleanups(id)
    }

    fn schedule_para_cleanup(id: ParaId) -> (steps: Vec<(ParaModule, ParaId)>) {
        let mut steps = T0::schedule_para_cleanup(id);
        let mut rest = <(T1, T2, T3, T4, T5, T6, T7, T8, T9, T10, T11, T12, T13, T14,) as ParachainCleanup>::schedule_para_cleanup(id);
        steps.append(&mut rest);
        steps
    }
}

/// A tuple of 16 schedulers.
impl<T0: ParachainCleanup, T1: ParachainCleanup, T2: ParachainCleanup, T3: ParachainCleanup, T4: ParachainCleanup, T5: ParachainCleanup, T6: ParachainCleanup, T7: ParachainCleanup, T8: ParachainCleanup, T9: ParachainCleanup, T10: ParachainCleanup, T11: ParachainCleanup, T12: ParachainCleanup, T13: ParachainCleanup, T14: ParachainCleanup, T15: ParachainCleanup> ParachainCleanup for (T0, T1, T2, T3, T4, T5, T6, T7, T8, T9, T10, T11, T12, T13, T14, T15,) {
    open spec fn cleanups(id: ParaId) -> Seq<(ParaModule, ParaId)> {
        T0::cleanups(id) + <(T1, T2, T3, T4, T5, T6, T7, T8, T9, T10, T11, T12, T13, T14, T15,) as ParachainCleanup>::cleanups(id)
    }

    fn schedule_para_cleanup(id: ParaId) -> (steps: Vec<(ParaModule, ParaId)>) {
        let mut steps = T0::schedule_para_cleanup(id);
        let mut rest = <(T1, T2, T3, T4, T5, T6, T7, T8, T9, T10, T11, T12, T13, T14, T15,) as ParachainCleanup>::schedule_para_cleanup(id);
        steps.append(&mut rest);
        steps
    }
}

/// A tuple of 17 schedulers.
impl<T0: ParachainCleanup, T1: ParachainCleanup, T2: ParachainCleanup, T3: ParachainCleanup, T4: ParachainCleanup, T5: ParachainCleanup, T6: ParachainCleanup, T7: ParachainCleanup, T8: ParachainCleanup, T9: ParachainCleanup, T10: ParachainCleanup, T11: ParachainCleanup, T12: ParachainCleanup, T13: ParachainCleanup, T14: ParachainCleanup, T15: ParachainCleanup, T16: ParachainCleanup> ParachainCleanup for (T0, T1, T2, T3, T4, T5, T6, T7, T8, T9, T10, T11, T12, T13, T14, T15, T16,) {
    open spec fn cleanups(id: ParaId) -> Seq<(ParaModule, ParaId)> {
        T0::cleanups(id) + <(T1, T2, T3, T4, T5, T6, T7, T8, T9, T10, T11, T12, T13, T14, T15, T16,) as ParachainCleanup>::cleanups(id)
    }

    fn schedule_para_cleanup(id: ParaId) -> (steps: Vec<(ParaModule, ParaId)>) {
        let mut steps = T0::schedule_para_cleanup(id);
        let mut rest = <(T1, T2, T3, T4, T5, T6, T7, T8, T9, T10, T11, T12, T13, T14, T15, T16,) as ParachainCleanup>::schedule_para_cleanup(id);
        steps.append(&mut rest);
        steps
    }
}

/// A tuple of 18 schedulers.
impl<T0: ParachainCleanup, T1: ParachainCleanup, T2: ParachainCleanup, T3: ParachainCleanup, T4: ParachainCleanup, T5: ParachainCleanup, T6: ParachainCleanup, T7: ParachainCleanup, T8: ParachainCleanup, T9: ParachainCleanup, T10: ParachainCleanup, T11: ParachainCleanup, T12: ParachainCleanup, T13: ParachainCleanup, T14: ParachainCleanup, T15: ParachainCleanup, T16: ParachainCleanup, T17: ParachainCleanup> ParachainCleanup for (T0, T1, T2, T3, T4, T5, T6, T7, T8, T9, T10, T11, T12, T13, T14, T15, T16, T17,) {
    open spec fn cleanups(id: ParaId) -> Seq<(ParaModule, ParaId)> {
        T0::cleanups(id) + <(T1, T2, T3, T4, T5, T6, T7, T8, T9, T10, T11, T12, T13, T14, T15, T16, T17,) as ParachainCleanup>::cleanups(id)
    }

    fn schedule_para_cleanup(id: ParaId) -> (steps: Vec<(ParaModule, ParaId)>) {
        let mut steps = T0::schedule_para_cleanup(id);
        let mut rest = <(T1, T2, T3, T4, T5, T6, T7, T8, T9, T10, T11, T12, T13, T14, T15, T16, T17,) as ParachainCleanup>::schedule_para_cleanup(id);
        steps.append(&mut rest);
        steps
    }
}

/// A tuple of 19 schedulers.
impl<T0: ParachainCleanup, T1: ParachainCleanup, T2: ParachainCleanup, T3: ParachainCleanup, T4: ParachainCleanup, T5: ParachainCleanup, T6: ParachainCleanup, T7: ParachainCleanup, T8: ParachainCleanup, T9: ParachainCleanup, T10: ParachainCleanup, T11: ParachainCleanup, T12: ParachainCleanup, T13: ParachainCleanup, T14: ParachainCleanup, T15: ParachainCleanup, T16: ParachainCleanup, T17: ParachainCleanup, T18: ParachainCleanup> ParachainCleanup for (T0, T1, T2, T3, T4, T5, T6, T7, T8, T9, T10, T11, T12, T13, T14, T15, T16, T17, T18,) {
    open spec fn cleanups(id: ParaId) -> Seq<(ParaModule, ParaId)> {
        T0::cleanups(id) + <(T1, T2, T3, T4, T5, T6, T7, T8, T9, T10, T11, T12, T13, T14, T15, T16, T17, T18,) as ParachainCleanup>::cleanups(id)
    }

    fn schedule_para_cleanup(id: ParaId) -> (steps: Vec<(ParaModule, ParaId)>) {
        let mut steps = T0::schedule_para_cleanup(id);
        let mut rest = <(T1, T2, T3, T4, T5, T6, T7, T8, T9, T10, T11, T12, T13, T14, T15, T16, T17, T18,) as ParachainCleanup>::schedule_para_cleanup(id);
        steps.append(&mut rest);
        steps
    }
}

/// A tuple of 20 schedulers.
impl<T0: ParachainCleanup, T1: ParachainCleanup, T2: ParachainCleanup, T3: ParachainCleanup, T4: ParachainCleanup, T5: ParachainCleanup, T6: ParachainCleanup, T7: ParachainCleanup, T8: ParachainCleanup, T9: ParachainCleanup, T10: ParachainCleanup, T11: ParachainCleanup, T12: ParachainCleanup, T13: ParachainCleanup, T14: ParachainCleanup, T15: ParachainCleanup, T16: ParachainCleanup, T17: ParachainCleanup, T18: ParachainCleanup, T19: ParachainCleanup> ParachainCleanup for (T0, T1, T2, T3, T4, T5, T6, T7, T8, T9, T10, T11, T12, T13, T14, T15, T16, T17, T18, T19,) {
    open spec fn cleanups(id: ParaId) -> Seq<(ParaModule, ParaId)> {
        T0::cleanups(id) + <(T1, T2, T3, T4, T5, T6, T7, T8, T9, T10, T11, T12, T13, T14, T15, T16, T17, T18, T19,) as ParachainCleanup>::cleanups(id)
    }

    fn schedule_para_cleanup(id: ParaId) -> (steps: Vec<(ParaModule, ParaId)>) {
        let mut steps = T0::schedule_para_cleanup(id);
        let mut rest = <(T1, T2, T3, T4, T5, T6, T7, T8, T9, T10, T11, T12, T13, T14, T15, T16, T17, T18, T19,) as ParachainCleanup>::schedule_para_cleanup(id);
        steps.append(&mut rest);
        steps
    }
}

/// A tuple of 21 schedulers.
impl<T0: ParachainCleanup, T1: ParachainCleanup, T2: ParachainCleanup, T3: ParachainCleanup, T4: ParachainCleanup, T5: ParachainCleanup, T6: ParachainCleanup, T7: ParachainCleanup, T8: ParachainCleanup, T9: ParachainCleanup, T10: ParachainCleanup, T11: ParachainCleanup, T12: ParachainCleanup, T13: ParachainCleanup, T14: ParachainCleanup, T15: ParachainCleanup, T16: ParachainCleanup, T17: ParachainCleanup, T18: ParachainCleanup, T19: ParachainCleanup, T20: ParachainCleanup> ParachainCleanup for (T0, T1, T2, T3, T4, T5, T6, T7, T8, T9, T10, T11, T12, T13, T14, T15, T16, T17, T18, T19, T20,) {
    open spec fn cleanups(id: ParaId) -> Seq<(ParaModule, ParaId)> {
        T0::cleanups(id) + <(T1, T2, T3, T4, T5, T6, T7, T8, T9, T10, T11, T12, T13, T14, T15, T16, T17, T18, T19, T20,) as ParachainCleanup>::cleanups(id)
    }

    fn schedule_para_cleanup(id: ParaId) -> (steps: Vec<(ParaModule, ParaId)>) {
        let mut steps = T0::schedule_para_cleanup(id);
        let mut rest = <(T1, T2, T3, T4, T5, T6, T7, T8, T9, T10, T11, T12, T13, T14, T15, T16, T17, T18, T19, T20,) as ParachainCleanup>::schedule_para_cleanup(id);
        steps.append(&mut rest);
        steps
    }
}

/// A tuple of 22 schedulers.
impl<T0: ParachainCleanup, T1: ParachainCleanup, T2: ParachainCleanup, T3: ParachainCleanup, T4: ParachainCleanup, T5: ParachainCleanup, T6: ParachainCleanup, T7: ParachainCleanup, T8: ParachainCleanup, T9: ParachainCleanup, T10: ParachainCleanup, T11: ParachainCleanup, T12: ParachainCleanup, T13: ParachainCleanup, T14: ParachainCleanup, T15: ParachainCleanup, T16: ParachainCleanup, T17: ParachainCleanup, T18: ParachainCleanup, T19: ParachainCleanup, T20: ParachainCleanup, T21: ParachainCleanup> ParachainCleanup for (T0, T1, T2, T3, T4, T5, T6, T7, T8, T9, T10, T11, T12, T13, T14, T15, T16, T17, T18, T19, T20, T21,) {
    open spec fn cleanups(id: ParaId) -> Seq<(ParaModule, ParaId)> {
        T0::cleanups(id) + <(T1, T2, T3, T4, T5, T6, T7, T8, T9, T10, T11, T12, T13, T14, T15, T16, T17, T18, T19, T20, T21,) as ParachainCleanup>::cleanups(id)
    }

    fn schedule_para_cleanup(id: ParaId) -> (steps: Vec<(ParaModule, ParaId)>) {
        let mut steps = T0::schedule_para_cleanup(id);
        let mut rest = <(T1, T2, T3, T4, T5, T6, T7, T8, T9, T10, T11, T12, T13, T14, T15, T16, T17, T18, T19, T20, T21,) as ParachainCleanup>::schedule_para_cleanup(id);
        steps.append(&mut rest);
        steps
    }
}

/// A tuple of 23 schedulers.
impl<T0: ParachainCleanup, T1: ParachainCleanup, T2: ParachainCleanup, T3: ParachainCleanup, T4: ParachainCleanup, T5: ParachainCleanup, T6: ParachainCleanup, T7: ParachainCleanup, T8: ParachainCleanup, T9: ParachainCleanup, T10: ParachainCleanup, T11: ParachainCleanup, T12: ParachainCleanup, T13: ParachainCleanup, T14: ParachainCleanup, T15: ParachainCleanup, T16: ParachainCleanup, T17: ParachainCleanup, T18: ParachainCleanup, T19: ParachainCleanup, T20: ParachainCleanup, T21: ParachainCleanup, T22: ParachainCleanup> ParachainCleanup for (T0, T1, T2, T3, T4, T5, T6, T7, T8, T9, T10, T11, T12, T13, T14, T15, T16, T17, T18, T19, T20, T21, T22,) {
    open spec fn cleanups(id: ParaId) -> Seq<(ParaModule, ParaId)> {
        T0::cleanups(id) + <(T1, T2, T3, T4, T5, T6, T7, T8, T9, T10, T11, T12, T13, T14, T15, T16, T17, T18, T19, T20, T21, T22,) as ParachainCleanup>::cleanups(id)
    }

    fn schedule_para_cleanup(id: ParaId) -> (steps: Vec<(ParaModule, ParaId)>) {
        let mut steps = T0::schedule_para_cleanup(id);
        let mut rest = <(T1, T2, T3, T4, T5, T6, T7, T8, T9, T10, T11, T12, T13, T14, T15, T16, T17, T18, T19, T20, T21, T22,) as ParachainCleanup>::schedule_para_cleanup(id);
        steps.append(&mut rest);
        steps
    }
}

/// A tuple of 24 schedulers.
impl<T0: ParachainCleanup, T1: ParachainCleanup, T2: ParachainCleanup, T3: ParachainCleanup, T4: ParachainCleanup, T5: ParachainCleanup, T6: ParachainCleanup, T7: ParachainCleanup, T8: ParachainCleanup, T9: ParachainCleanup, T10: ParachainCleanup, T11: ParachainCleanup, T12: ParachainCleanup, T13: ParachainCleanup, T14: ParachainCleanup, T15: ParachainCleanup, T16: ParachainCleanup, T17: ParachainCleanup, T18: ParachainCleanup, T19: ParachainCleanup, T20: ParachainCleanup, T21: ParachainCleanup, T22: ParachainCleanup, T23: ParachainCleanup> ParachainCleanup for (T0, T1, T2, T3, T4, T5, T6, T7, T8, T9, T10, T11, T12, T13, T14, T15, T16, T17, T18, T19, T20, T21, T22, T23,) {
    open spec fn cleanups(id: ParaId) -> Seq<(ParaModule, ParaId)> {
        T0::cleanups(id) + <(T1, T2, T3, T4, T5, T6, T7, T8, T9, T10, T11, T12, T13, T14, T15, T16, T17, T18, T19, T20, T21, T22, T23,) as ParachainCleanup>::cleanups(id)
    }

    fn schedule_para_cleanup(id: ParaId) -> (steps: Vec<(ParaModule, ParaId)>) {
        let mut steps = T0::schedule_para_cleanup(id);
        let mut rest = <(T1, T2, T3, T4, T5, T6, T7, T8, T9, T10, T11, T12, T13, T14, T15, T16, T17, T18, T19, T20, T21, T22, T23,) as ParachainCleanup>::schedule_para_cleanup(id);
        steps.append(&mut rest);
        steps
    }
}

/// A tuple of 25 schedulers.
impl<T0: ParachainCleanup, T1: ParachainCleanup, T2: ParachainCleanup, T3: ParachainCleanup, T4: ParachainCleanup, T5: ParachainCleanup, T6: ParachainCleanup, T7: ParachainCleanup, T8: ParachainCleanup, T9: ParachainCleanup, T10: ParachainCleanup, T11: ParachainCleanup, T12: ParachainCleanup, T13: ParachainCleanup, T14: ParachainCleanup, T15: ParachainCleanup, T16: ParachainCleanup, T17: ParachainCleanup, T18: ParachainCleanup, T19: ParachainCleanup, T20: ParachainCleanup, T21: ParachainCleanup, T22: ParachainCleanup, T23: ParachainCleanup, T24: ParachainCleanup> ParachainCleanup for (T0, T1, T2, T3, T4, T5, T6, T7, T8, T9, T10, T11, T12, T13, T14, T15, T16, T17, T18, T19, T20, T21, T22, T23, T24,) {
    open spec fn cleanups(id: ParaId) -> Seq<(ParaModule, ParaId)> {
        T0::cleanups(id) + <(T1, T2, T3, T4, T5, T6, T7, T8, T9, T10, T11, T12, T13, T14, T15, T16, T17, T18, T19, T20, T21, T22, T23, T24,) as ParachainCleanup>::cleanups(id)
    }

    fn schedule_para_cleanup(id: ParaId) -> (steps: Vec<(ParaModule, ParaId)>) {
        let mut steps = T0::schedule_para_cleanup(id);
        let mut rest = <(T1, T2, T3, T4, T5, T6, T7, T8, T9, T10, T11, T12, T13, T14, T15, T16, T17, T18, T19, T20, T21, T22, T23, T24,) as ParachainCleanup>::schedule_para_cleanup(id);
        steps.append(&mut rest);
        steps
    }
}

/// A tuple of 26 schedulers.
impl<T0: ParachainCleanup, T1: ParachainCleanup, T2: ParachainCleanup, T3: ParachainCleanup, T4: ParachainCleanup, T5: ParachainCleanup, T6: ParachainCleanup, T7: ParachainCleanup, T8: ParachainCleanup, T9: ParachainCleanup, T10: ParachainCleanup, T11: ParachainCleanup, T12: ParachainCleanup, T13: ParachainCleanup, T14: ParachainCleanup, T15: ParachainCleanup, T16: ParachainCleanup, T17: ParachainCleanup, T18: ParachainCleanup, T19: ParachainCleanup, T20: ParachainCleanup, T21: ParachainCleanup, T22: ParachainCleanup, T23: ParachainCleanup, T24: ParachainCleanup, T25: ParachainCleanup> ParachainCleanup for (T0, T1, T2, T3, T4, T5, T6, T7, T8, T9, T10, T11, T12, T13, T14, T15, T16, T17, T18, T19, T20, T21, T22, T23, T24, T25,) {
    open spec fn cleanups(id: ParaId) -> Seq<(ParaModule, ParaId)> {
        T0::cleanups(id) + <(T1, T2, T3, T4, T5, T6, T7, T8, T9, T10, T11, T12, T13, T14, T15, T16, T17, T18, T19, T20, T21, T22, T23, T24, T25,) as ParachainCleanup>::cleanups(id)
    }

    fn schedule_para_cleanup(id: ParaId) -> (steps: Vec<(ParaModule, ParaId)>) {
        let mut steps = T0::schedule_para_cleanup(id);
        let mut rest = <(T1, T2, T3, T4, T5, T6, T7, T8, T9, T10, T11, T12, T13, T14, T15, T16, T17, T18, T19, T20, T21, T22, T23, T24, T25,) as ParachainCleanup>::schedule_para_cleanup(id);
        steps.append(&mut rest);
        steps
    }
}

/// A tuple of 27 schedulers.
impl<T0: ParachainCleanup, T1: ParachainCleanup, T2: ParachainCleanup, T3: ParachainCleanup, T4: ParachainCleanup, T5: ParachainCleanup, T6: ParachainCleanup, T7: ParachainCleanup, T8: ParachainCleanup, T9: ParachainCleanup, T10: ParachainCleanup, T11: ParachainCleanup, T12: ParachainCleanup, T13: ParachainCleanup, T14: ParachainCleanup, T15: ParachainCleanup, T16: ParachainCleanup, T17: ParachainCleanup, T18: ParachainCleanup, T19: ParachainCleanup, T20: ParachainCleanup, T21: ParachainCleanup, T22: ParachainCleanup, T23: ParachainCleanup, T24: ParachainCleanup, T25: ParachainCleanup, T26: ParachainCleanup> ParachainCleanup for (T0, T1, T2, T3, T4, T5, T6, T7, T8, T9, T10, T11, T12, T13, T14, T15, T16, T17, T18, T19, T20, T21, T22, T23, T24, T25, T26,) {
    open spec fn cleanups(id: ParaId) -> Seq<(ParaModule, ParaId)> {
        T0::cleanups(id) + <(T1, T2, T3, T4, T5, T6, T7, T8, T9, T10, T11, T12, T13, T14, T15, T16, T17, T18, T19, T20, T21, T22, T23, T24, T25, T26,) as ParachainCleanup>::cleanups(id)
    }

    fn schedule_para_cleanup(id: ParaId) -> (steps: Vec<(ParaModule, ParaId)>) {
        let mut steps = T0::schedule_para_cleanup(id);
        let mut rest = <(T1, T2, T3, T4, T5, T6, T7, T8, T9, T10, T11, T12, T13, T14, T15, T16, T17, T18, T19, T20, T21, T22, T23, T24, T25, T26,) as ParachainCleanup>::schedule_para_cleanup(id);
        steps.append(&mut rest);
        steps
    }
}

/// A tuple of 28 schedulers.
impl<T0: ParachainCleanup, T1: ParachainCleanup, T2: ParachainCleanup, T3: ParachainCleanup, T4: ParachainCleanup, T5: ParachainCleanup, T6: ParachainCleanup, T7: ParachainCleanup, T8: ParachainCleanup, T9: ParachainCleanup, T10: ParachainCleanup, T11: ParachainCleanup, T12: ParachainCleanup, T13: ParachainCleanup, T14: ParachainCleanup, T15: ParachainCleanup, T16: ParachainCleanup, T17: ParachainCleanup, T18: ParachainCleanup, T19: ParachainCleanup, T20: ParachainCleanup, T21: ParachainCleanup, T22: ParachainCleanup, T23: ParachainCleanup, T24: ParachainCleanup, T25: ParachainCleanup, T26: ParachainCleanup, T27: ParachainCleanup> ParachainCleanup for (T0, T1, T2, T3, T4, T5, T6, T7, T8, T9, T10, T11, T12, T13, T14, T15, T16, T17, T18, T19, T20, T21, T22, T23, T24, T25, T26, T27,) {
    open spec fn cleanups(id: ParaId) -> Seq<(ParaModule, ParaId)> {
        T0::cleanups(id) + <(T1, T2, T3, T4, T5, T6, T7, T8, T9, T10, T11, T12, T13, T14, T15, T16, T17, T18, T19, T20, T21, T22, T23, T24, T25, T26, T27,) as ParachainCleanup>::cleanups(id)
    }

    fn schedule_para_cleanup(id: ParaId) -> (steps: Vec<(ParaModule, ParaId)>) {
        let mut steps = T0::schedule_para_cleanup(id);
        let mut rest = <(T1, T2, T3, T4, T5, T6, T7, T8, T9, T10, T11, T12, T13, T14, T15, T16, T17, T18, T19, T20, T21, T22, T23, T24, T25, T26, T27,) as ParachainCleanup>::schedule_para_cleanup(id);
        steps.append(&mut rest);
        steps
    }
}

/// A tuple of 29 schedulers.
impl<T0: ParachainCleanup, T1: ParachainCleanup, T2: ParachainCleanup, T3: ParachainCleanup, T4: ParachainCleanup, T5: ParachainCleanup, T6: ParachainCleanup, T7: ParachainCleanup, T8: ParachainCleanup, T9: ParachainCleanup, T10: ParachainCleanup, T11: ParachainCleanup, T12: ParachainCleanup, T13: ParachainCleanup, T14: ParachainCleanup, T15: ParachainCleanup, T16: ParachainCleanup, T17: ParachainCleanup, T18: ParachainCleanup, T19: ParachainCleanup, T20: ParachainCleanup, T21: ParachainCleanup, T22: ParachainCleanup, T23: ParachainCleanup, T24: ParachainCleanup, T25: ParachainCleanup, T26: ParachainCleanup, T27: ParachainCleanup, T28: ParachainCleanup> ParachainCleanup for (T0, T1, T2, T3, T4, T5, T6, T7, T8, T9, T10, T11, T12, T13, T14, T15, T16, T17, T18, T19, T20, T21, T22, T23, T24, T25, T26, T27, T28,) {
    open spec fn cleanups(id: ParaId) -> Seq<(ParaModule, ParaId)> {
        T0::cleanups(id) + <(T1, T2, T3, T4, T5, T6, T7, T8, T9, T10, T11, T12, T13, T14, T15, T16, T17, T18, T19, T20, T21, T22, T23, T24, T25, T26, T27, T28,) as ParachainCleanup>::cleanups(id)
    }

    fn schedule_para_cleanup(id: ParaId) -> (steps: Vec<(ParaModule, ParaId)>) {
        let mut steps = T0::schedule_para_cleanup(id);
        let mut rest = <(T1, T2, T3, T4, T5, T6, T7, T8, T9, T10, T11, T12, T13, T14, T15, T16, T17, T18, T19, T20, T21, T22, T23, T24, T25, T26, T27, T28,) as ParachainCleanup>::schedule_para_cleanup(id);
        steps.append(&mut rest);
        steps
    }
}

/// A tuple of 30 schedulers.
impl<T0: ParachainCleanup, T1: ParachainCleanup, T2: ParachainCleanup, T3: ParachainCleanup, T4: ParachainCleanup, T5: ParachainCleanup, T6: ParachainCleanup, T7: ParachainCleanup, T8: ParachainCleanup, T9: ParachainCleanup, T10: ParachainCleanup, T11: ParachainCleanup, T12: ParachainCleanup, T13: ParachainCleanup, T14: ParachainCleanup, T15: ParachainCleanup, T16: ParachainCleanup, T17: ParachainCleanup, T18: ParachainCleanup, T19: ParachainCleanup, T20: ParachainCleanup, T21: ParachainCleanup, T22: ParachainCleanup, T23: ParachainCleanup, T24: ParachainCleanup, T25: ParachainCleanup, T26: ParachainCleanup, T27: ParachainCleanup, T28: ParachainCleanup, T29: ParachainCleanup> ParachainCleanup for (T0, T1, T2, T3, T4, T5, T6, T7, T8, T9, T10, T11, T12, T13, T14, T15, T16, T17, T18, T19, T20, T21, T22, T23, T24, T25, T26, T27, T28, T29,) {
    open spec fn cleanups(id: ParaId) -> Seq<(ParaModule, ParaId)> {
        T0::cleanups(id) + <(T1, T2, T3, T4, T5, T6, T7, T8, T9, T10, T11, T12, T13, T14, T15, T16, T17, T18, T19, T20, T21, T22, T23, T24, T25, T26, T27, T28, T29,) as ParachainCleanup>::cleanups(id)
    }

    fn schedule_para_cleanup(id: ParaId) -> (steps: Vec<(ParaModule, ParaId)>) {
        let mut steps = T0::schedule_para_cleanup(id);
        let mut rest = <(T1, T2, T3, T4, T5, T6, T7, T8, T9, T10, T11, T12, T13, T14, T15, T16, T17, T18, T19, T20, T21, T22, T23, T24, T25, T26, T27, T28, T29,) as ParachainCleanup>::schedule_para_cleanup(id);
        steps.append(&mut rest);
        steps
    }
}

} // verus!
