use roqoqo_aqt::errors::to_decimal;
use roqoqo_aqt::{BackendError, Endpoint, NetworkFailure};

#[test]
fn test_to_decimal() {
    assert_eq!(to_decimal(0), "0");
    assert_eq!(to_decimal(7), "7");
    assert_eq!(to_decimal(10), "10");
    assert_eq!(to_decimal(404), "404");
    assert_eq!(to_decimal(1234567890), "1234567890");
    assert_eq!(to_decimal(u32::MAX), "4294967295");
    for n in [1u32, 9, 11, 99, 100, 101, 65535, 1000000] {
        assert_eq!(to_decimal(n), n.to_string());
    }
}

#[test]
fn test_messages_of_failed_requests() {
    let error = BackendError::NetworkError {
        endpoint: Endpoint::Submit,
        failure: NetworkFailure::Status { code: 404 },
    };
    assert_eq!(
        error.message(),
        "Failed to post job to server. Request to server failed with HTTP status code 404"
    );
    let error = BackendError::NetworkError {
        endpoint: Endpoint::Result,
        failure: NetworkFailure::Status { code: 500 },
    };
    assert_eq!(
        error.message(),
        "Failed to get result from server. Request to server failed with HTTP status code 500"
    );
    let error = BackendError::NetworkError {
        endpoint: Endpoint::Resources,
        failure: NetworkFailure::Status { code: 65535 },
    };
    assert_eq!(
        error.message(),
        "Failed to get resource details. Request to server failed with HTTP status code 65535"
    );
    let error = BackendError::NetworkError {
        endpoint: Endpoint::Resources,
        failure: NetworkFailure::Transport { detail: "connection refused".to_string() },
    };
    assert_eq!(error.message(), "connection refused");
    let error = BackendError::NetworkError { endpoint: Endpoint::Submit, failure: NetworkFailure::Unexpected };
    assert_eq!(error.message(), "Answer of the server does not fit the request");
}

#[test]
fn test_messages_of_unavailable_devices() {
    let error = BackendError::ResourceUnavailable { status: "offline".to_string(), available_qubits: 12 };
    assert_eq!(error.message(), "AQT resource is currently ofline");
    let error = BackendError::ResourceUnavailable { status: "online".to_string(), available_qubits: 2 };
    assert_eq!(error.message(), "Insuffient qubits on backend device. Maximum available qubits: 2.");
    let error = BackendError::ResourceUnavailable { status: String::new(), available_qubits: 2 };
    assert_eq!(error.message(), "AQT resource is currently ofline");
}

#[test]
fn test_messages_of_jobs() {
    let error = BackendError::RemoteExecutionError { message: "detailed error message".to_string() };
    assert_eq!(error.message(), "AQT network backend reported error: detailed error message");
    assert_eq!(
        BackendError::JobCancelled.message(),
        "AQT network backend reported that the job was cancelled"
    );
    assert_eq!(BackendError::Timeout.message(), "AQT backend timed out after 20s");
    assert_eq!(
        BackendError::MissingResult.message(),
        "Failed to get measurement due to incorrect retrieval from AQT response"
    );
}

#[test]
fn test_messages_of_translation_and_set_up() {
    let error = BackendError::OperationNotSupported {
        backend_name: "AQT".to_string(),
        operation_name: "CNOT".to_string(),
    };
    assert_eq!(error.message(), "Operation CNOT not supported by backend AQT");
    let error = BackendError::SymbolicParameter { expression: "theta".to_string() };
    assert_eq!(error.message(), "Symbolic parameter can not be converted to a number: theta");
    assert_eq!(BackendError::MissingAuthentication.message(), "AQT access token is missing");
}
