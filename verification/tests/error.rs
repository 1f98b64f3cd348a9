use inoctl::error::ProtocolError;

fn text(s: &str) -> String {
    String::from(s)
}

#[test]
fn failures_that_end_the_session() {
    assert!(ProtocolError::TransportOpenFailure(text("no such device")).is_fatal());
    assert!(ProtocolError::UnknownCommand(text("frobnicate")).is_fatal());
    assert!(ProtocolError::ActuatorFailure(text("socket closed")).is_fatal());
}

#[test]
fn failures_that_are_reported_and_survived() {
    assert!(!ProtocolError::SendFailure(text("Broken pipe")).is_fatal());
    assert!(!ProtocolError::MonitorNotFound(text("HDMI-A-1")).is_fatal());
    assert!(!ProtocolError::DisplayQueryFailure(text("no socket")).is_fatal());
    assert!(!ProtocolError::UnrecognizedInboundCode(0x7F).is_fatal());
}

#[test]
fn message_of_an_unknown_command() {
    assert_eq!(
        ProtocolError::UnknownCommand(text("frobnicate")).message(),
        "Error: Unknown command \"frobnicate\"."
    );
}

#[test]
fn message_of_a_send_failure() {
    assert_eq!(
        ProtocolError::SendFailure(text("Broken pipe")).message(),
        "error, couldn't send: Broken pipe"
    );
}

#[test]
fn message_of_a_missing_monitor() {
    assert_eq!(
        ProtocolError::MonitorNotFound(text("HDMI-A-1")).message(),
        "error, monitor HDMI-A-1 not found."
    );
}

#[test]
fn message_of_a_failed_query() {
    assert_eq!(
        ProtocolError::DisplayQueryFailure(text("no socket")).message(),
        "error: no socket"
    );
}

#[test]
fn message_of_an_unrecognized_code_is_decimal() {
    assert_eq!(
        ProtocolError::UnrecognizedInboundCode(0x7F).message(),
        "error, received unrecognized code 127."
    );
    assert_eq!(
        ProtocolError::UnrecognizedInboundCode(0).message(),
        "error, received unrecognized code 0."
    );
}

#[test]
fn message_of_a_collaborator_failure_is_its_own() {
    assert_eq!(ProtocolError::ActuatorFailure(text("socket closed")).message(), "socket closed");
    assert_eq!(
        ProtocolError::TransportOpenFailure(text("no such device")).message(),
        "no such device"
    );
}
