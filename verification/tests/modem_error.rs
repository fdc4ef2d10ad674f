use nmrs::modem_error::{ModemError, SimLockState};

#[test]
fn display_includes_context() {
    let err = ModemError::ModemNotFound("/org/freedesktop/ModemManager1/Modem/0".into());
    let rendered = err.to_string();
    assert!(rendered.contains("modem not found"));
    assert!(rendered.contains("Modem/0"));
}

#[test]
fn sim_locked_carries_state() {
    let err = ModemError::SimLocked(SimLockState::SimPuk);
    assert!(err.to_string().contains("SimPuk"));
}

#[test]
fn messages_of_plain_errors() {
    assert_eq!(ModemError::NoModems.to_string(), "no modems found");
    assert_eq!(ModemError::WrongPin.to_string(), "wrong pin");
    assert_eq!(ModemError::WrongPuk.to_string(), "wrong puk");
    assert_eq!(ModemError::Timeout.to_string(), "modem operation timed out");
    assert_eq!(ModemError::InvalidApn(" ".into()).to_string(), "invalid apn:  ");
    assert_eq!(ModemError::SimLocked(SimLockState::SimPin).to_string(), "sim locked: SimPin");
}

#[test]
fn messages_of_errors_with_sources() {
    let err = ModemError::DbusOperation {
        context: "calling Enable".into(),
        source: zbus::Error::Failure("boom".into()),
    };
    assert_eq!(err.to_string(), "calling Enable: boom");
    let err = ModemError::from(zbus::Error::InvalidReply);
    assert_eq!(err.to_string(), "d-bus error: Invalid D-Bus method reply");
    let parse: Result<i32, _> = "x".parse::<i32>();
    let err = ModemError::from(parse.unwrap_err());
    assert_eq!(err.to_string(), "invalid integer in modem property: invalid digit found in string");
}

#[test]
fn dbus_operation_chains_source() {
    let err = ModemError::DbusOperation {
        context: "calling Enable".into(),
        source: zbus::Error::InvalidReply,
    };
    let rendered = err.to_string();
    assert!(rendered.contains("calling Enable"));
    assert!(err.source().is_some());
}

#[test]
fn plain_errors_have_no_source() {
    assert!(ModemError::NoModems.source().is_none());
    assert!(ModemError::InvalidApn("x".into()).source().is_none());
    assert!(ModemError::Dbus(zbus::Error::InvalidReply).source().is_some());
}
