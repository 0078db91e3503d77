use nebo_sdk::NeboError;
use nebo_sdk::TransportFault;

#[test]
fn every_failure_has_its_text() {
    assert_eq!(
        NeboError::NoSockPath.message(),
        "NEBO_APP_SOCK environment variable is not set"
    );
    assert_eq!(NeboError::NoHandlers.message(), "no capability handlers registered");
    assert_eq!(
        NeboError::Transport("connection reset".to_string()).message(),
        "transport error: connection reset"
    );
    assert_eq!(
        NeboError::Execution("division by zero".to_string()).message(),
        "execution error: division by zero"
    );
    assert_eq!(NeboError::Io("permission denied".to_string()).message(), "io error: permission denied");
    assert_eq!(NeboError::Other("plain".to_string()).message(), "plain");
}

#[test]
fn a_failure_made_from_an_empty_text_says_nothing() {
    assert_eq!(NeboError::Other(String::new()).message(), "");
    assert_eq!(NeboError::Execution(String::new()).message(), "execution error: ");
}

#[test]
fn a_text_becomes_a_failure_of_the_other_kind() {
    assert_eq!(NeboError::from("boom"), NeboError::Other("boom".to_string()));
    assert_eq!(NeboError::from("boom".to_string()), NeboError::Other("boom".to_string()));
    assert_eq!(NeboError::from("boom").message(), "boom");
}

#[test]
fn a_fault_carries_the_text_of_the_failure() {
    let fault = TransportFault::from_failure(&NeboError::Execution("no stream".to_string()));
    assert_eq!(fault, TransportFault::Internal("execution error: no stream".to_string()));
    assert_eq!(fault.message(), "execution error: no stream");
}

#[test]
fn what_an_answer_reports_of_a_failure_is_never_empty() {
    assert_eq!(NeboError::Other(String::new()).report_text(), "unknown error");
    assert_eq!(NeboError::from("").report_text(), "unknown error");
    assert_eq!(NeboError::Other("plain".to_string()).report_text(), "plain");
    assert_eq!(NeboError::Execution(String::new()).report_text(), "execution error: ");
    assert_eq!(NeboError::NoHandlers.report_text(), "no capability handlers registered");
}
