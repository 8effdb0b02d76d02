use delivery::errors::{DeliveryError, Kind};

#[test]
fn throw_without_detail() {
    let e = DeliveryError::throw(Kind::EndpointNotFound, None);
    assert!(e.detail.is_none());
    assert!(matches!(e.kind, Kind::EndpointNotFound));
}

#[test]
fn throw_with_detail() {
    let msg = "Your json looks funcky".to_string();
    let e = DeliveryError::throw(Kind::JsonError, Some(msg.clone()));
    assert!(e.detail.is_some());
    assert_eq!(e.detail.unwrap(), msg);
    assert!(matches!(e.kind, Kind::JsonError));
}

#[test]
fn messages_of_kinds_with_values() {
    assert_eq!("Phase failed with exit code (-2)!", DeliveryError::throw(Kind::PhaseFailed(-2), None).message());
    assert_eq!(
        "The project 'p' was not found.",
        DeliveryError::throw(Kind::ProjectNotFound("p".to_string()), None).message()
    );
}
