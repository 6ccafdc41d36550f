//! The ways in which work for an AQT device can fail.

use vstd::prelude::*;
use vstd::string::StringExecFns;

verus! {

/// The three requests that a backend sends to the endpoint of a device.
#[derive(Debug, Clone, Copy, PartialEq, Eq, Structural)]
pub enum Endpoint {
    /// The query for the state of the device.
    Resources,
    /// The submission of a job.
    Submit,
    /// The query for the state and result of a job.
    Result,
}

/// Why a request brought no usable answer.
#[derive(Debug, Clone, PartialEq, Eq)]
pub enum NetworkFailure {
    /// The endpoint answered with a status code that does not signal success.
    Status { code: u16 },
    /// No answer arrived, or its body could not be read.
    Transport { detail: String },
    /// The answer is not of the kind that the request asks for.
    Unexpected,
}

/// Mathematical value of a [`NetworkFailure`].
pub enum NetworkFailureView {
    Status { code: u16 },
    Transport { detail: Seq<char> },
    Unexpected,
}

impl View for NetworkFailure {
    type V = NetworkFailureView;

    open spec fn view(&self) -> NetworkFailureView {
        match *self {
            NetworkFailure::Status { code } => NetworkFailureView::Status { code },
            NetworkFailure::Transport { detail } => NetworkFailureView::Transport { detail: detail@ },
            NetworkFailure::Unexpected => NetworkFailureView::Unexpected,
        }
    }
}

/// An error of the backend.
#[derive(Debug, Clone, PartialEq, Eq)]
pub enum BackendError {
    /// The circuit holds an operation that the device cannot execute.
    OperationNotSupported { backend_name: String, operation_name: String },
    /// A gate has a symbolic angle, which has no value to send.
    SymbolicParameter { expression: String },
    /// No access token was given and none was found.
    MissingAuthentication,
    /// A request to the endpoint failed.
    NetworkError { endpoint: Endpoint, failure: NetworkFailure },
    /// The device is not online, or has fewer qubits than the backend needs.
    ResourceUnavailable { status: String, available_qubits: u32 },
    /// The endpoint reported that the job ended in an error.
    RemoteExecutionError { message: String },
    /// The endpoint reported that the job was cancelled.
    JobCancelled,
    /// The job finished, but its answer holds no samples for the circuit.
    MissingResult,
    /// The job reached no final state within the polls allowed.
    Timeout,
}

/// Mathematical value of a [`BackendError`].
pub enum BackendErrorView {
    OperationNotSupported { backend_name: Seq<char>, operation_name: Seq<char> },
    SymbolicParameter { expression: Seq<char> },
    MissingAuthentication,
    NetworkError { endpoint: Endpoint, failure: NetworkFailureView },
    ResourceUnavailable { status: Seq<char>, available_qubits: u32 },
    RemoteExecutionError { message: Seq<char> },
    JobCancelled,
    MissingResult,
    Timeout,
}

impl View for BackendError {
    type V = BackendErrorView;

    open spec fn view(&self) -> BackendErrorView {
        match *self {
            BackendError::OperationNotSupported { backend_name, operation_name } =>
                BackendErrorView::OperationNotSupported {
                backend_name: backend_name@,
                operation_name: operation_name@,
            },
            BackendError::SymbolicParameter { expression } => BackendErrorView::SymbolicParameter {
                expression: expression@,
            },
            BackendError::MissingAuthentication => BackendErrorView::MissingAuthentication,
            BackendError::NetworkError { endpoint, failure } => BackendErrorView::NetworkError {
                endpoint,
                failure: failure@,
            },
            BackendError::ResourceUnavailable { status, available_qubits } =>
                BackendErrorView::ResourceUnavailable { status: status@, available_qubits },
            BackendError::RemoteExecutionError { message } => BackendErrorView::RemoteExecutionError {
                message: message@,
            },
            BackendError::JobCancelled => BackendErrorView::JobCancelled,
            BackendError::MissingResult => BackendErrorView::MissingResult,
            BackendError::Timeout => BackendErrorView::Timeout,
        }
    }
}

/// The character of a decimal digit.
pub open spec fn digit(d: nat) -> char {
    if d == 0 {
        '0'
    } else if d == 1 {
        '1'
    } else if d == 2 {
        '2'
    } else if d == 3 {
        '3'
    } else if d == 4 {
        '4'
    } else if d == 5 {
        '5'
    } else if d == 6 {
        '6'
    } else if d == 7 {
        '7'
    } else if d == 8 {
        '8'
    } else {
        '9'
    }
}

/// A number in decimal notation, without leading zeros.
pub open spec fn decimal(n: nat) -> Seq<char>
    decreases n,
{
    if n < 10 {
        seq![digit(n)]
    } else {
        decimal(n / 10).push(digit(n % 10))
    }
}

/// What an error says in words.
pub open spec fn message_text(error: BackendErrorView) -> Seq<char> {
    match error {
        BackendErrorView::OperationNotSupported { backend_name, operation_name } => "Operation "@
            + operation_name + " not supported by backend "@ + backend_name,
        BackendErrorView::SymbolicParameter { expression } =>
            "Symbolic parameter can not be converted to a number: "@ + expression,
        BackendErrorView::MissingAuthentication => "AQT access token is missing"@,
        BackendErrorView::NetworkError { endpoint, failure } => match failure {
            NetworkFailureView::Status { code } => (match endpoint {
                Endpoint::Resources => "Failed to get resource details. "@,
                Endpoint::Submit => "Failed to post job to server. "@,
                Endpoint::Result => "Failed to get result from server. "@,
            }) + "Request to server failed with HTTP status code "@ + decimal(code as nat),
            NetworkFailureView::Transport { detail } => detail,
            NetworkFailureView::Unexpected => "Answer of the server does not fit the request"@,
        },
        BackendErrorView::ResourceUnavailable { status, available_qubits } => if status != "online"@ {
            "AQT resource is currently ofline"@
        } else {
            "Insuffient qubits on backend device. Maximum available qubits: "@ + decimal(
                available_qubits as nat,
            ) + "."@
        },
        BackendErrorView::RemoteExecutionError { message } => "AQT network backend reported error: "@
            + message,
        BackendErrorView::JobCancelled => "AQT network backend reported that the job was cancelled"@,
        BackendErrorView::MissingResult =>
            "Failed to get measurement due to incorrect retrieval from AQT response"@,
        BackendErrorView::Timeout => "AQT backend timed out after 20s"@,
    }
}

/// Returns a decimal digit as text.
fn digit_text(d: u32) -> (text: &'static str)
    requires
        d < 10,
    ensures
        text@ == seq![digit(d as nat)],
{
    proof {
        reveal_strlit("0");
        reveal_strlit("1");
        reveal_strlit("2");
        reveal_strlit("3");
        reveal_strlit("4");
        reveal_strlit("5");
        reveal_strlit("6");
        reveal_strlit("7");
        reveal_strlit("8");
        reveal_strlit("9");
    }
    let text = if d == 0 {
        "0"
    } else if d == 1 {
        "1"
    } else if d == 2 {
        "2"
    } else if d == 3 {
        "3"
    } else if d == 4 {
        "4"
    } else if d == 5 {
        "5"
    } else if d == 6 {
        "6"
    } else if d == 7 {
        "7"
    } else if d == 8 {
        "8"
    } else {
        "9"
    };
    text
}

/// Writes a number in decimal notation.
pub fn to_decimal(n: u32) -> (text: String)
    ensures
        text@ == decimal(n as nat),
    decreases n,
{
    if n < 10 {
        String::from_str(digit_text(n))
    } else {
        let mut text = to_decimal(n / 10);
        text.append(digit_text(n % 10));
        text
    }
}

impl BackendError {
    /// Says in words what went wrong.
    pub fn message(&self) -> (text: String)
        ensures
            text@ == message_text(self@),
    {
        match self {
            BackendError::OperationNotSupported { backend_name, operation_name } => String::from_str(
                "Operation ",
            ).concat(operation_name.as_str()).concat(" not supported by backend ").concat(
                backend_name.as_str(),
            ),
            BackendError::SymbolicParameter { expression } => String::from_str(
                "Symbolic parameter can not be converted to a number: ",
            ).concat(expression.as_str()),
            BackendError::MissingAuthentication => String::from_str("AQT access token is missing"),
            BackendError::NetworkError { endpoint, failure } => match failure {
                NetworkFailure::Status { code } => {
                    let start = match endpoint {
                        Endpoint::Resources => String::from_str("Failed to get resource details. "),
                        Endpoint::Submit => String::from_str("Failed to post job to server. "),
                        Endpoint::Result => String::from_str("Failed to get result from server. "),
                    };
                    let wide: u32 = *code as u32;
                    let number = to_decimal(wide);
                    start.concat("Request to server failed with HTTP status code ").concat(
                        number.as_str(),
                    )
                },
                NetworkFailure::Transport { detail } => detail.clone(),
                NetworkFailure::Unexpected => String::from_str(
                    "Answer of the server does not fit the request",
                ),
            },
            BackendError::ResourceUnavailable { status, available_qubits } => {
                if *status != String::from_str("online") {
                    String::from_str("AQT resource is currently ofline")
                } else {
                    let number = to_decimal(*available_qubits);
                    String::from_str(
                        "Insuffient qubits on backend device. Maximum available qubits: ",
                    ).concat(number.as_str()).concat(".")
                }
            },
            BackendError::RemoteExecutionError { message } => String::from_str(
                "AQT network backend reported error: ",
            ).concat(message.as_str()),
            BackendError::JobCancelled => String::from_str(
                "AQT network backend reported that the job was cancelled",
            ),
            BackendError::MissingResult => String::from_str(
                "Failed to get measurement due to incorrect retrieval from AQT response",
            ),
            BackendError::Timeout => String::from_str("AQT backend timed out after 20s"),
        }
    }
}

} // verus!
