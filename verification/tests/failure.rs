use iwd_devices::render::written_or_failure;
use iwd_devices::{Failure, FailureKind};

fn json_error() -> serde_json::Error {
    serde_json::from_str::<serde_json::Value>("{").unwrap_err()
}

#[test]
fn bus_error_is_a_connection_failure() {
    let failure = Failure::from(zbus::Error::InvalidReply);
    assert!(matches!(failure, Failure::Connection(zbus::Error::InvalidReply)));
    assert_eq!(failure.kind(), FailureKind::Connection);
}

#[test]
fn call_error_is_a_remote_call_failure() {
    let failure = Failure::from(zbus::fdo::Error::Timeout("no answer".to_string()));
    match &failure {
        Failure::RemoteCall(zbus::fdo::Error::Timeout(text)) => assert_eq!(text, "no answer"),
        other => panic!("unexpected failure: {:?}", other),
    }
    assert_eq!(failure.kind(), FailureKind::RemoteCall);
}

#[test]
fn json_error_is_a_serialization_failure() {
    let error = json_error();
    let text = error.to_string();
    let failure = Failure::from(error);
    match &failure {
        Failure::Serialization(inner) => assert_eq!(inner.to_string(), text),
        other => panic!("unexpected failure: {:?}", other),
    }
    assert_eq!(failure.kind(), FailureKind::Serialization);
}

fn bus_step() -> Result<(), Failure> {
    Err(zbus::Error::InvalidReply)?;
    Ok(())
}

fn call_step() -> Result<(), Failure> {
    Err(zbus::fdo::Error::ServiceUnknown("net.connman.iwd".to_string()))?;
    Ok(())
}

fn json_step() -> Result<(), Failure> {
    Err(json_error())?;
    Ok(())
}

#[test]
fn question_mark_converts_each_error() {
    assert_eq!(bus_step().unwrap_err().kind(), FailureKind::Connection);
    assert_eq!(call_step().unwrap_err().kind(), FailureKind::RemoteCall);
    assert_eq!(json_step().unwrap_err().kind(), FailureKind::Serialization);
}

#[test]
fn failure_describes_itself() {
    let failure = Failure::from(zbus::fdo::Error::Timeout("no answer".to_string()));
    let text = format!("{:?}", failure);
    assert!(text.starts_with("RemoteCall("));
    assert!(text.contains("no answer"));
}

#[test]
fn written_text_is_handed_on() {
    let outcome = written_or_failure(Ok("{}".to_string()));
    assert_eq!(outcome.unwrap(), "{}");
    let outcome = written_or_failure(Ok(String::new()));
    assert_eq!(outcome.unwrap(), "");
}

#[test]
fn writer_error_becomes_a_serialization_failure() {
    let error = json_error();
    let text = error.to_string();
    match written_or_failure(Err(error)) {
        Err(Failure::Serialization(inner)) => assert_eq!(inner.to_string(), text),
        other => panic!("unexpected outcome: {:?}", other),
    }
}
