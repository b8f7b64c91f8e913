use polkadot_logic::xcm::{Error, Junction, MultiLocation, Outcome, Xcm};

fn parent() -> MultiLocation {
    MultiLocation { parents: 1, interior: Vec::new() }
}

fn message() -> Xcm<()> {
    Xcm::new(vec![0, 1, 2])
}

#[test]
fn error_from_unit_is_undefined() {
    let e: Error = Error::from(());
    assert_eq!(e, Error::Undefined);
    let e2: Error = ().into();
    assert_eq!(e2, Error::Undefined);
}

#[test]
fn ensure_complete_on_each_outcome() {
    assert_eq!(Outcome::Complete(10).ensure_complete(), Ok(()));
    assert_eq!(Outcome::Incomplete(10, Error::Barrier).ensure_complete(), Err(Error::Barrier));
    assert_eq!(Outcome::Error(Error::BadOrigin).ensure_complete(), Err(Error::BadOrigin));
}

#[test]
fn ensure_execution_on_each_outcome() {
    assert_eq!(Outcome::Complete(10).ensure_execution(), Ok(10));
    assert_eq!(Outcome::Incomplete(7, Error::TooExpensive).ensure_execution(), Ok(7));
    assert_eq!(
        Outcome::Error(Error::WeightLimitReached(99)).ensure_execution(),
        Err(Error::WeightLimitReached(99))
    );
}

#[test]
fn weight_used_on_each_outcome() {
    assert_eq!(Outcome::Complete(10).weight_used(), 10);
    assert_eq!(Outcome::Incomplete(7, Error::Overflow).weight_used(), 7);
    assert_eq!(Outcome::Error(Error::Unimplemented).weight_used(), 0);
}

#[test]
fn outcome_views_agree_on_concrete_values() {
    let outcomes = vec![
        Outcome::Complete(3),
        Outcome::Incomplete(4, Error::Wildcard),
        Outcome::Error(Error::SendFailed("queue full")),
    ];
    for o in outcomes {
        let complete = o.clone().ensure_complete();
        let executed = o.clone().ensure_execution();
        if complete.is_ok() {
            assert!(executed.is_ok());
        }
        match executed {
            Ok(w) => assert_eq!(w, o.weight_used()),
            Err(e) => {
                assert_eq!(o.weight_used(), 0);
                assert_eq!(complete, Err(e));
            }
        }
    }
}

#[test]
fn cannot_reach_carries_location_and_message() {
    let e = Error::CannotReachDestination(parent(), message());
    match e {
        Error::CannotReachDestination(d, m) => {
            assert_eq!(d, parent());
            assert_eq!(m, message());
        }
        _ => panic!("wrong variant"),
    }
}

#[test]
fn location_accessors() {
    let l = MultiLocation {
        parents: 2,
        interior: vec![Junction::Parachain(1000), Junction::GeneralIndex(5)],
    };
    assert_eq!(l.parent_count(), 2);
    assert_eq!(l.interior_len(), 2);
    assert_eq!(parent().interior_len(), 0);
}
