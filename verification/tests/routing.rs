use polkadot_logic::routing::{ExecuteXcm, SendXcm};
use polkadot_logic::xcm::{Error, Junction, MultiLocation, Outcome, Weight, Xcm, XcmResult};

type Message = Xcm<()>;

/// A sender that only passes the message through and does nothing.
struct Sender1;
impl SendXcm for Sender1 {
    fn sends(destination: MultiLocation, message: Message, result: XcmResult) -> bool {
        result == Err(Error::CannotReachDestination(destination, message))
    }
    fn send_xcm(destination: MultiLocation, message: Message) -> XcmResult {
        Err(Error::CannotReachDestination(destination, message))
    }
}

/// A sender that accepts a message that has an X2 junction, otherwise stops the routing.
struct Sender2;
impl SendXcm for Sender2 {
    fn sends(destination: MultiLocation, _message: Message, result: XcmResult) -> bool {
        let reached = destination.interior.len() == 2 && destination.parents == 0;
        result == if reached { Ok(()) } else { Err(Error::Undefined) }
    }
    fn send_xcm(destination: MultiLocation, _message: Message) -> XcmResult {
        if destination.interior_len() == 2 && destination.parent_count() == 0 {
            Ok(())
        } else {
            Err(Error::Undefined)
        }
    }
}

/// A sender that accepts a message from an X1 parent junction, passing through otherwise.
struct Sender3;
impl SendXcm for Sender3 {
    fn sends(destination: MultiLocation, message: Message, result: XcmResult) -> bool {
        if destination.interior.is_empty() && destination.parents == 1 {
            result == Ok(())
        } else {
            result == Err(Error::CannotReachDestination(destination, message))
        }
    }
    fn send_xcm(destination: MultiLocation, message: Message) -> XcmResult {
        if destination.interior_len() == 0 && destination.parent_count() == 1 {
            Ok(())
        } else {
            Err(Error::CannotReachDestination(destination, message))
        }
    }
}

/// A sender that cannot reach anything but redirects to the parent.
struct ToParent;
impl SendXcm for ToParent {
    fn sends(_destination: MultiLocation, message: Message, result: XcmResult) -> bool {
        result == Err(Error::CannotReachDestination(MultiLocation { parents: 1, interior: Vec::new() }, message))
    }
    fn send_xcm(_destination: MultiLocation, message: Message) -> XcmResult {
        Err(Error::CannotReachDestination(MultiLocation { parents: 1, interior: Vec::new() }, message))
    }
}

fn parent() -> MultiLocation {
    MultiLocation { parents: 1, interior: Vec::new() }
}

fn sibling() -> MultiLocation {
    MultiLocation { parents: 0, interior: vec![Junction::Parachain(1), Junction::PalletInstance(3)] }
}

fn message() -> Message {
    Xcm::new(vec![7, 7])
}

#[test]
fn documented_tuple_routing() {
    // Sender2 will block this.
    assert!(<(Sender1, Sender2, Sender3) as SendXcm>::send_xcm(parent(), message()).is_err());
    // Sender3 will catch this.
    assert!(<(Sender1, Sender3) as SendXcm>::send_xcm(parent(), message()).is_ok());
}

#[test]
fn empty_chain_hands_back_its_input() {
    assert_eq!(
        <() as SendXcm>::send_xcm(parent(), message()),
        Err(Error::CannotReachDestination(parent(), message()))
    );
}

#[test]
fn unreached_destination_passes_through_the_whole_chain() {
    assert_eq!(
        <(Sender1, Sender1, Sender1, Sender1) as SendXcm>::send_xcm(sibling(), message()),
        Err(Error::CannotReachDestination(sibling(), message()))
    );
}

#[test]
fn altered_destination_reaches_the_next_sender() {
    assert_eq!(<(ToParent, Sender3) as SendXcm>::send_xcm(sibling(), message()), Ok(()));
    assert_eq!(<(Sender3,) as SendXcm>::send_xcm(sibling(), message()),
        Err(Error::CannotReachDestination(sibling(), message())));
}

#[test]
fn first_definite_answer_stops_routing() {
    assert_eq!(<(Sender2, Sender3) as SendXcm>::send_xcm(parent(), message()), Err(Error::Undefined));
    assert_eq!(<(Sender2, Sender3) as SendXcm>::send_xcm(sibling(), message()), Ok(()));
}

#[test]
fn nested_chains_answer_alike() {
    for dest in vec![parent(), sibling()] {
        let flat = <(Sender1, Sender2, Sender3) as SendXcm>::send_xcm(dest.clone(), message());
        let right = <(Sender1, (Sender2, Sender3)) as SendXcm>::send_xcm(dest.clone(), message());
        let left = <((Sender1, Sender2), Sender3) as SendXcm>::send_xcm(dest.clone(), message());
        assert_eq!(flat, right);
        assert_eq!(flat, left);
    }
}

struct Recorder;
impl ExecuteXcm<()> for Recorder {
    fn executes(
        _origin: MultiLocation,
        _message: Message,
        weight_limit: Weight,
        weight_credit: Weight,
        outcome: Outcome,
    ) -> bool {
        outcome == Recorder::execute_xcm_in_credit(_origin, _message, weight_limit, weight_credit)
    }

    fn execute_xcm_in_credit(
        _origin: MultiLocation,
        _message: Message,
        weight_limit: Weight,
        weight_credit: Weight,
    ) -> Outcome {
        if weight_credit == 0 {
            Outcome::Complete(weight_limit)
        } else {
            Outcome::Incomplete(weight_credit.min(weight_limit), Error::Barrier)
        }
    }
}

#[test]
fn execute_xcm_gives_no_credit() {
    assert_eq!(<Recorder as ExecuteXcm<()>>::execute_xcm(parent(), message(), 50), Outcome::Complete(50));
    assert_eq!(
        <Recorder as ExecuteXcm<()>>::execute_xcm_in_credit(parent(), message(), 50, 3),
        Outcome::Incomplete(3, Error::Barrier)
    );
}

#[test]
fn unit_executor_is_unimplemented() {
    assert_eq!(<() as ExecuteXcm<()>>::execute_xcm(parent(), message(), 50), Outcome::Error(Error::Unimplemented));
    assert_eq!(
        <() as ExecuteXcm<()>>::execute_xcm_in_credit(parent(), message(), 50, 10),
        Outcome::Error(Error::Unimplemented)
    );
}
