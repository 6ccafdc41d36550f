//! The course of one circuit on a device, from the query for the device's
//! state over the submission of the job to its result.
//!
//! The backend decides, the caller talks to the endpoint: each step takes
//! the answer to the last request and gives the next thing to do.

use crate::backend::{
    conversion, result_address, resources_address, submit_address, AqtResourceDetails,
    AqtResourceDetailsView, AqtRunData, AqtRunDataView, AqtRunResponse, AqtRunResponseView, Backend,
    Link,
};
use crate::decoder::{decoded_shots, record_samples};
use crate::devices::AqtApi;
use crate::errors::{BackendError, BackendErrorView, Endpoint, NetworkFailure, NetworkFailureView};
use crate::operations::{circuit_view, Operation, OperationView};
use crate::registers::{Registers, RegistersView};
use vstd::prelude::*;
use vstd::string::StringExecFns;

verus! {

/// The number of queries for the result of a job after which a job that has
/// not ended is given up.
pub const MAX_POLLS: u32 = 100;

/// The seconds to wait between the submission of a job and the first query
/// for its result.
pub const FIRST_DELAY: u64 = 1;

/// The seconds to wait between two queries for the result of a job.
pub const POLL_DELAY: u64 = 20;

/// The method of a request.
#[derive(Debug, Clone, Copy, PartialEq, Eq, Structural)]
pub enum Method {
    /// A request that asks for something.
    Get,
    /// A request that hands something in.
    Post,
}

/// A request to the endpoint of a device.
#[derive(Debug, Clone, PartialEq, Eq)]
pub struct Request {
    /// Which of the three requests this is
    pub endpoint: Endpoint,
    /// The method of the request
    pub method: Method,
    /// The address of the request
    pub url: String,
    /// The access token, sent as bearer token
    pub token: String,
    /// The job, which is the body of a submission
    pub body: Option<AqtRunData>,
}

/// Mathematical value of a [`Request`].
pub struct RequestView {
    pub endpoint: Endpoint,
    pub method: Method,
    pub url: Seq<char>,
    pub token: Seq<char>,
    pub body: Option<AqtRunDataView>,
}

impl View for Request {
    type V = RequestView;

    open spec fn view(&self) -> RequestView {
        RequestView {
            endpoint: self.endpoint,
            method: self.method,
            url: self.url@,
            token: self.token@,
            body: match self.body {
                Some(data) => Some(data@),
                None => None,
            },
        }
    }
}

/// What came back for a request.
#[derive(Debug, PartialEq, Eq)]
pub enum Reply {
    /// No answer arrived.
    Unreachable { detail: String },
    /// The answer to the query for the state of the device: its status
    /// code, and its body or the reason why the body could not be read.
    Resources { status_code: u16, details: Result<AqtResourceDetails, String> },
    /// The answer to a submission or to a query for a result: its status
    /// code, and its body or the reason why the body could not be read.
    Run { status_code: u16, response: Result<AqtRunResponse, String> },
}

/// Mathematical value of a [`Reply`].
pub enum ReplyView {
    Unreachable { detail: Seq<char> },
    Resources { status_code: u16, details: Result<AqtResourceDetailsView, Seq<char>> },
    Run { status_code: u16, response: Result<AqtRunResponseView, Seq<char>> },
}

impl View for Reply {
    type V = ReplyView;

    open spec fn view(&self) -> ReplyView {
        match *self {
            Reply::Unreachable { detail } => ReplyView::Unreachable { detail: detail@ },
            Reply::Resources { status_code, details } => ReplyView::Resources {
                status_code,
                details: match details {
                    Ok(d) => Ok(d@),
                    Err(reason) => Err(reason@),
                },
            },
            Reply::Run { status_code, response } => ReplyView::Run {
                status_code,
                response: match response {
                    Ok(r) => Ok(r@),
                    Err(reason) => Err(reason@),
                },
            },
        }
    }
}

/// The state of the execution of one circuit.
#[derive(Debug)]
pub enum Execution {
    /// The job is built and the state of the device has been asked for.
    Created { data: AqtRunData, registers: Registers, readout: String },
    /// The job has been sent to the endpoint.
    Submitted { registers: Registers, readout: String },
    /// The endpoint has the job, and has been asked `polls` times for its
    /// result.
    Polling { job_id: String, polls: u32, registers: Registers, readout: String },
    /// The job has finished and its result has been handed out.
    Finished,
    /// The execution has failed.
    Failed,
    /// The job was cancelled.
    Cancelled,
    /// The job did not end within the queries allowed.
    TimedOut,
}

/// Mathematical value of an [`Execution`].
pub enum ExecutionView {
    Created { data: AqtRunDataView, registers: RegistersView, readout: Seq<char> },
    Submitted { registers: RegistersView, readout: Seq<char> },
    Polling { job_id: Seq<char>, polls: u32, registers: RegistersView, readout: Seq<char> },
    Finished,
    Failed,
    Cancelled,
    TimedOut,
}

impl View for Execution {
    type V = ExecutionView;

    open spec fn view(&self) -> ExecutionView {
        match *self {
            Execution::Created { data, registers, readout } => ExecutionView::Created {
                data: data@,
                registers: registers@,
                readout: readout@,
            },
            Execution::Submitted { registers, readout } => ExecutionView::Submitted {
                registers: registers@,
                readout: readout@,
            },
            Execution::Polling { job_id, polls, registers, readout } => ExecutionView::Polling {
                job_id: job_id@,
                polls,
                registers: registers@,
                readout: readout@,
            },
            Execution::Finished => ExecutionView::Finished,
            Execution::Failed => ExecutionView::Failed,
            Execution::Cancelled => ExecutionView::Cancelled,
            Execution::TimedOut => ExecutionView::TimedOut,
        }
    }
}

impl ExecutionView {
    /// Whether the execution has ended.
    pub open spec fn is_final(self) -> bool {
        self is Finished || self is Failed || self is Cancelled || self is TimedOut
    }
}

/// What the caller does next.
#[derive(Debug)]
pub enum Action {
    /// Wait for the given number of seconds, send the request, and hand the
    /// answer to the next step.
    Send { request: Request, delay_seconds: u64 },
    /// The circuit has run: these are its output registers.
    Return { registers: Registers },
    /// The execution has failed with this error.
    Fail { error: BackendError },
    /// The execution had ended before: there is nothing to do.
    Stop,
}

/// Mathematical value of an [`Action`].
pub enum ActionView {
    Send { request: RequestView, delay_seconds: u64 },
    Return { registers: RegistersView },
    Fail { error: BackendErrorView },
    Stop,
}

impl View for Action {
    type V = ActionView;

    open spec fn view(&self) -> ActionView {
        match *self {
            Action::Send { request, delay_seconds } => ActionView::Send {
                request: request@,
                delay_seconds,
            },
            Action::Return { registers } => ActionView::Return { registers: registers@ },
            Action::Fail { error } => ActionView::Fail { error: error@ },
            Action::Stop => ActionView::Stop,
        }
    }
}

/// The query for the state of the device.
pub open spec fn resources_request(link: Link) -> RequestView {
    RequestView {
        endpoint: Endpoint::Resources,
        method: Method::Get,
        url: resources_address(link.host, link.device_id),
        token: link.token,
        body: None,
    }
}

/// The submission of a job.
pub open spec fn submit_request(link: Link, data: AqtRunDataView) -> RequestView {
    RequestView {
        endpoint: Endpoint::Submit,
        method: Method::Post,
        url: submit_address(link.host, link.device_id),
        token: link.token,
        body: Some(data),
    }
}

/// The query for the state and result of a job.
pub open spec fn result_request(link: Link, job_id: Seq<char>) -> RequestView {
    RequestView {
        endpoint: Endpoint::Result,
        method: Method::Get,
        url: result_address(link.host, job_id),
        token: link.token,
        body: None,
    }
}

/// Whether a status code signals success for a request: 200 for the query
/// for the state of the device, any code from 200 to 299 for the others.
pub open spec fn accepted(endpoint: Endpoint, status_code: u16) -> bool {
    match endpoint {
        Endpoint::Resources => status_code == 200,
        _ => 200 <= status_code < 300,
    }
}

/// The error of a request that failed with the given failure.
pub open spec fn network_error(endpoint: Endpoint, failure: NetworkFailureView) -> BackendErrorView {
    BackendErrorView::NetworkError { endpoint, failure }
}

/// What the answer to the query for the state of the device says: the
/// state, or the error of a request that brought none.
pub open spec fn resources_answer(reply: ReplyView) -> Result<
    AqtResourceDetailsView,
    BackendErrorView,
> {
    match reply {
        ReplyView::Unreachable { detail } => Err(
            network_error(Endpoint::Resources, NetworkFailureView::Transport { detail }),
        ),
        ReplyView::Resources { status_code, details } => if !accepted(
            Endpoint::Resources,
            status_code,
        ) {
            Err(network_error(Endpoint::Resources, NetworkFailureView::Status { code: status_code }))
        } else {
            match details {
                Ok(d) => Ok(d),
                Err(detail) => Err(
                    network_error(Endpoint::Resources, NetworkFailureView::Transport { detail }),
                ),
            }
        },
        ReplyView::Run { .. } => Err(network_error(Endpoint::Resources, NetworkFailureView::Unexpected)),
    }
}

/// What the answer to a submission or to a query for a result says: the
/// state of the job, or the error of a request that brought none.
pub open spec fn run_answer(endpoint: Endpoint, reply: ReplyView) -> Result<
    AqtRunResponseView,
    BackendErrorView,
> {
    match reply {
        ReplyView::Unreachable { detail } => Err(
            network_error(endpoint, NetworkFailureView::Transport { detail }),
        ),
        ReplyView::Run { status_code, response } => if !accepted(endpoint, status_code) {
            Err(network_error(endpoint, NetworkFailureView::Status { code: status_code }))
        } else {
            match response {
                Ok(r) => Ok(r),
                Err(detail) => Err(network_error(endpoint, NetworkFailureView::Transport { detail })),
            }
        },
        ReplyView::Resources { .. } => Err(network_error(endpoint, NetworkFailureView::Unexpected)),
    }
}

/// Whether a device in the given state can run circuits on `qubits` qubits:
/// it is online and offers at least that many.
pub open spec fn available(details: AqtResourceDetailsView, qubits: nat) -> bool {
    details.status == "online"@ && details.available_qubits >= qubits
}

/// The output registers after a job has finished with the given samples:
/// the values of the samples stand, in the order of the samples, after the
/// shots of the bit register that the readout names, if there is one.
pub open spec fn recorded(
    registers: RegistersView,
    readout: Seq<char>,
    samples: Seq<Seq<u32>>,
    qubits: nat,
) -> RegistersView {
    if registers.bit.contains_key(readout) {
        RegistersView {
            bit: registers.bit.insert(readout, registers.bit[readout] + decoded_shots(samples, qubits)),
            ..registers
        }
    } else {
        registers
    }
}

/// The first step of an execution: a circuit that cannot be translated
/// fails before any request, any other leads to the query for the state of
/// the device.
pub open spec fn first_step(link: Link, circuit: Seq<OperationView>) -> (ExecutionView, ActionView) {
    match conversion(link.qubits, circuit) {
        Err(error) => (ExecutionView::Failed, ActionView::Fail { error }),
        Ok(converted) => (
            ExecutionView::Created {
                data: converted.data,
                registers: converted.registers,
                readout: converted.readout,
            },
            ActionView::Send { request: resources_request(link), delay_seconds: 0 },
        ),
    }
}

/// The step from the query for the state of the device to the submission.
pub open spec fn step_created(
    link: Link,
    data: AqtRunDataView,
    registers: RegistersView,
    readout: Seq<char>,
    reply: ReplyView,
) -> (ExecutionView, ActionView) {
    match resources_answer(reply) {
        Err(error) => (ExecutionView::Failed, ActionView::Fail { error }),
        Ok(details) => if available(details, link.qubits) {
            (
                ExecutionView::Submitted { registers, readout },
                ActionView::Send { request: submit_request(link, data), delay_seconds: 0 },
            )
        } else {
            (
                ExecutionView::Failed,
                ActionView::Fail {
                    error: BackendErrorView::ResourceUnavailable {
                        status: details.status,
                        available_qubits: details.available_qubits,
                    },
                },
            )
        },
    }
}

/// The step from the submission to the first query for the result.
pub open spec fn step_submitted(
    link: Link,
    registers: RegistersView,
    readout: Seq<char>,
    reply: ReplyView,
) -> (ExecutionView, ActionView) {
    match run_answer(Endpoint::Submit, reply) {
        Err(error) => (ExecutionView::Failed, ActionView::Fail { error }),
        Ok(response) => (
            ExecutionView::Polling { job_id: response.job.job_id, polls: 1, registers, readout },
            ActionView::Send {
                request: result_request(link, response.job.job_id),
                delay_seconds: FIRST_DELAY,
            },
        ),
    }
}

/// The step after a query for the result: the job has finished, failed or
/// been cancelled, or it is asked for again, unless it has been asked for
/// as often as allowed.
pub open spec fn step_polling(
    link: Link,
    job_id: Seq<char>,
    polls: u32,
    registers: RegistersView,
    readout: Seq<char>,
    reply: ReplyView,
) -> (ExecutionView, ActionView) {
    match run_answer(Endpoint::Result, reply) {
        Err(error) => (ExecutionView::Failed, ActionView::Fail { error }),
        Ok(response) => if response.response.status == "finished"@ {
            if response.response.result.contains_key(0) {
                (
                    ExecutionView::Finished,
                    ActionView::Return {
                        registers: recorded(
                            registers,
                            readout,
                            response.response.result[0],
                            link.qubits,
                        ),
                    },
                )
            } else {
                (ExecutionView::Failed, ActionView::Fail { error: BackendErrorView::MissingResult })
            }
        } else if response.response.status == "error"@ {
            (
                ExecutionView::Failed,
                ActionView::Fail {
                    error: BackendErrorView::RemoteExecutionError { message: response.response.message },
                },
            )
        } else if response.response.status == "cancelled"@ {
            (ExecutionView::Cancelled, ActionView::Fail { error: BackendErrorView::JobCancelled })
        } else if polls < MAX_POLLS {
            (
                ExecutionView::Polling { job_id, polls: (polls + 1) as u32, registers, readout },
                ActionView::Send { request: result_request(link, job_id), delay_seconds: POLL_DELAY },
            )
        } else {
            (ExecutionView::TimedOut, ActionView::Fail { error: BackendErrorView::Timeout })
        },
    }
}

/// The step that an execution takes on the answer to its last request.
/// An execution that has ended stays as it is.
pub open spec fn next_step(link: Link, state: ExecutionView, reply: ReplyView) -> (
    ExecutionView,
    ActionView,
) {
    match state {
        ExecutionView::Created { data, registers, readout } => step_created(
            link,
            data,
            registers,
            readout,
            reply,
        ),
        ExecutionView::Submitted { registers, readout } => step_submitted(
            link,
            registers,
            readout,
            reply,
        ),
        ExecutionView::Polling { job_id, polls, registers, readout } => step_polling(
            link,
            job_id,
            polls,
            registers,
            readout,
            reply,
        ),
        _ => (state, ActionView::Stop),
    }
}

/// Tells whether a status code signals success for a request.
fn is_accepted(endpoint: Endpoint, status_code: u16) -> (ok: bool)
    ensures
        ok == accepted(endpoint, status_code),
{
    match endpoint {
        Endpoint::Resources => status_code == 200,
        _ => 200 <= status_code && status_code < 300,
    }
}

/// Mathematical value of what an answer to the query for the state of the
/// device says.
pub open spec fn resources_answer_view(answer: Result<AqtResourceDetails, BackendError>) -> Result<
    AqtResourceDetailsView,
    BackendErrorView,
> {
    match answer {
        Ok(details) => Ok(details@),
        Err(e) => Err(e@),
    }
}

/// Mathematical value of what an answer to a submission or to a query for
/// a result says.
pub open spec fn run_answer_view(answer: Result<AqtRunResponse, BackendError>) -> Result<
    AqtRunResponseView,
    BackendErrorView,
> {
    match answer {
        Ok(response) => Ok(response@),
        Err(e) => Err(e@),
    }
}

/// Reads the answer to a submission or to a query for a result.
fn read_run(endpoint: Endpoint, reply: Reply) -> (answer: Result<AqtRunResponse, BackendError>)
    ensures
        run_answer_view(answer) == run_answer(endpoint, reply@),
{
    match reply {
        Reply::Unreachable { detail } => Err(
            BackendError::NetworkError { endpoint, failure: NetworkFailure::Transport { detail } },
        ),
        Reply::Run { status_code, response } => {
            if !is_accepted(endpoint, status_code) {
                Err(
                    BackendError::NetworkError {
                        endpoint,
                        failure: NetworkFailure::Status { code: status_code },
                    },
                )
            } else {
                match response {
                    Ok(r) => Ok(r),
                    Err(detail) => Err(
                        BackendError::NetworkError {
                            endpoint,
                            failure: NetworkFailure::Transport { detail },
                        },
                    ),
                }
            }
        },
        Reply::Resources { .. } => Err(
            BackendError::NetworkError { endpoint, failure: NetworkFailure::Unexpected },
        ),
    }
}

impl<T: AqtApi> Backend<T> {
    /// Builds the query for the state of the device.
    fn query_resources(&self) -> (request: Request)
        ensures
            request@ == resources_request(self.link()),
    {
        Request {
            endpoint: Endpoint::Resources,
            method: Method::Get,
            url: self.resources_url(),
            token: self.access_token.clone(),
            body: None,
        }
    }

    /// Builds the submission of a job.
    fn submit(&self, data: AqtRunData) -> (request: Request)
        ensures
            request@ == submit_request(self.link(), data@),
    {
        Request {
            endpoint: Endpoint::Submit,
            method: Method::Post,
            url: self.submit_url(),
            token: self.access_token.clone(),
            body: Some(data),
        }
    }

    /// Builds the query for the state and result of a job.
    fn query_result(&self, job_id: &String) -> (request: Request)
        ensures
            request@ == result_request(self.link(), job_id@),
    {
        Request {
            endpoint: Endpoint::Result,
            method: Method::Get,
            url: self.result_url(job_id.as_str()),
            token: self.access_token.clone(),
            body: None,
        }
    }

    /// Reads what came back for the query for the state of the device.
    ///
    /// Returns the state that the endpoint reports, or the error of a
    /// request that was not answered, was answered with another status code
    /// than 200, or whose answer could not be read.
    pub fn get_resource_details(&self, reply: Reply) -> (answer: Result<
        AqtResourceDetails,
        BackendError,
    >)
        ensures
            resources_answer_view(answer) == resources_answer(reply@),
    {
        match reply {
            Reply::Unreachable { detail } => Err(
                BackendError::NetworkError {
                    endpoint: Endpoint::Resources,
                    failure: NetworkFailure::Transport { detail },
                },
            ),
            Reply::Resources { status_code, details } => {
                if !is_accepted(Endpoint::Resources, status_code) {
                    Err(
                        BackendError::NetworkError {
                            endpoint: Endpoint::Resources,
                            failure: NetworkFailure::Status { code: status_code },
                        },
                    )
                } else {
                    match details {
                        Ok(d) => Ok(d),
                        Err(detail) => Err(
                            BackendError::NetworkError {
                                endpoint: Endpoint::Resources,
                                failure: NetworkFailure::Transport { detail },
                            },
                        ),
                    }
                }
            },
            Reply::Run { .. } => Err(
                BackendError::NetworkError {
                    endpoint: Endpoint::Resources,
                    failure: NetworkFailure::Unexpected,
                },
            ),
        }
    }

    /// Reads what came back for the submission of a job.
    ///
    /// Returns what the endpoint says of the job, or the error of a request
    /// that was not answered, was answered with a status code that does not
    /// signal success, or whose answer could not be read.
    pub fn post_job(&self, reply: Reply) -> (answer: Result<AqtRunResponse, BackendError>)
        ensures
            run_answer_view(answer) == run_answer(Endpoint::Submit, reply@),
    {
        read_run(Endpoint::Submit, reply)
    }

    /// Reads what came back for a query for the state and result of a job.
    ///
    /// Returns what the endpoint says of the job, or the error of a request
    /// that was not answered, was answered with a status code that does not
    /// signal success, or whose answer could not be read.
    pub fn get_result(&self, reply: Reply) -> (answer: Result<AqtRunResponse, BackendError>)
        ensures
            run_answer_view(answer) == run_answer(Endpoint::Result, reply@),
    {
        read_run(Endpoint::Result, reply)
    }

    /// Starts the execution of a circuit.
    ///
    /// The circuit is translated before anything is sent: one that cannot
    /// be translated fails at once. For any other the caller is told to ask
    /// for the state of the device.
    pub fn begin(&self, circuit: &[Operation]) -> (started: (Execution, Action))
        ensures
            (started.0@, started.1@) == first_step(self.link(), circuit_view(circuit@)),
    {
        match self.convert_circuit_to_aqt_instructions(circuit) {
            Err(error) => (Execution::Failed, Action::Fail { error }),
            Ok((data, registers, readout)) => (
                Execution::Created { data, registers, readout },
                Action::Send { request: self.query_resources(), delay_seconds: 0 },
            ),
        }
    }

    /// Takes the step that follows the answer to the last request.
    ///
    /// Returns the new state and what the caller does next: send another
    /// request and come back with its answer, or end with the output
    /// registers or with an error.
    pub fn step(&self, state: Execution, reply: Reply) -> (next: (Execution, Action))
        ensures
            (next.0@, next.1@) == next_step(self.link(), state@, reply@),
    {
        match state {
            Execution::Created { data, registers, readout } => {
                match self.get_resource_details(reply) {
                    Err(error) => (Execution::Failed, Action::Fail { error }),
                    Ok(details) => {
                        let online: bool = details.status == String::from_str("online");
                        let enough: bool = self.fits(details.available_qubits);
                        if online && enough {
                            (
                                Execution::Submitted { registers, readout },
                                Action::Send { request: self.submit(data), delay_seconds: 0 },
                            )
                        } else {
                            (
                                Execution::Failed,
                                Action::Fail {
                                    error: BackendError::ResourceUnavailable {
                                        status: details.status,
                                        available_qubits: details.available_qubits,
                                    },
                                },
                            )
                        }
                    },
                }
            },
            Execution::Submitted { registers, readout } => {
                match self.post_job(reply) {
                    Err(error) => (Execution::Failed, Action::Fail { error }),
                    Ok(response) => {
                        let request = self.query_result(&response.job.job_id);
                        (
                            Execution::Polling {
                                job_id: response.job.job_id,
                                polls: 1,
                                registers,
                                readout,
                            },
                            Action::Send { request, delay_seconds: FIRST_DELAY },
                        )
                    },
                }
            },
            Execution::Polling { job_id, polls, registers, readout } => {
                match self.get_result(reply) {
                    Err(error) => (Execution::Failed, Action::Fail { error }),
                    Ok(response) => {
                        if response.response.status == String::from_str("finished") {
                            match response.response.result.get(&0) {
                                Some(samples) => {
                                    let mut registers = registers;
                                    record_samples(
                                        &mut registers.bit,
                                        readout.as_str(),
                                        samples,
                                        self.device.number_qubits(),
                                    );
                                    (Execution::Finished, Action::Return { registers })
                                },
                                None => (
                                    Execution::Failed,
                                    Action::Fail { error: BackendError::MissingResult },
                                ),
                            }
                        } else if response.response.status == String::from_str("error") {
                            (
                                Execution::Failed,
                                Action::Fail {
                                    error: BackendError::RemoteExecutionError {
                                        message: response.response.message,
                                    },
                                },
                            )
                        } else if response.response.status == String::from_str("cancelled") {
                            (Execution::Cancelled, Action::Fail { error: BackendError::JobCancelled })
                        } else if polls < MAX_POLLS {
                            let request = self.query_result(&job_id);
                            (
                                Execution::Polling { job_id, polls: polls + 1, registers, readout },
                                Action::Send { request, delay_seconds: POLL_DELAY },
                            )
                        } else {
                            (Execution::TimedOut, Action::Fail { error: BackendError::Timeout })
                        }
                    },
                }
            },
            Execution::Finished => (Execution::Finished, Action::Stop),
            Execution::Failed => (Execution::Failed, Action::Stop),
            Execution::Cancelled => (Execution::Cancelled, Action::Stop),
            Execution::TimedOut => (Execution::TimedOut, Action::Stop),
        }
    }

    /// Tells whether a device that offers the given number of qubits has
    /// as many as this backend's device.
    fn fits(&self, available_qubits: u32) -> (enough: bool)
        ensures
            enough == (available_qubits >= self.device.qubits()),
    {
        let needed: usize = self.device.number_qubits();
        let needed_wide: u64 = needed as u64;
        let available_wide: u64 = available_qubits as u64;
        available_wide >= needed_wide
    }
}

/// A bound on the number of steps that an execution in the given state
/// can still take.
pub open spec fn remaining(state: ExecutionView) -> nat {
    match state {
        ExecutionView::Created { .. } => (MAX_POLLS + 2) as nat,
        ExecutionView::Submitted { .. } => (MAX_POLLS + 1) as nat,
        ExecutionView::Polling { polls, .. } => if polls < MAX_POLLS {
            (MAX_POLLS + 1 - polls) as nat
        } else {
            1
        },
        _ => 0,
    }
}

/// The state of an execution after the given answers, in order.
pub open spec fn run(link: Link, state: ExecutionView, replies: Seq<ReplyView>) -> ExecutionView
    decreases replies.len(),
{
    if replies.len() == 0 {
        state
    } else {
        next_step(link, run(link, state, replies.drop_last()), replies.last()).0
    }
}

/// Whether the queries for the result that a state counts are within the
/// number allowed.
pub open spec fn polls_in_bounds(state: ExecutionView) -> bool {
    state is Polling ==> 1 <= state->polls <= MAX_POLLS
}

/// Each step brings an execution that has not ended closer to its end, and
/// leaves one that has ended as it is, with nothing to do.
pub proof fn law_step_makes_progress(link: Link, state: ExecutionView, reply: ReplyView)
    ensures
        !state.is_final() ==> remaining(next_step(link, state, reply).0) < remaining(state),
        state.is_final() ==> next_step(link, state, reply) == (state, ActionView::Stop),
        state.is_final() <==> remaining(state) == 0,
{
}

/// Whatever the endpoint answers, an execution has ended after as many
/// answers as its state allows steps: one to the query for the state of the
/// device, one to the submission, and one to each query for the result.
pub proof fn law_execution_ends(link: Link, state: ExecutionView, replies: Seq<ReplyView>)
    ensures
        remaining(run(link, state, replies)) <= remaining(state),
        remaining(run(link, state, replies)) + replies.len() <= remaining(state) || run(
            link,
            state,
            replies,
        ).is_final(),
        replies.len() >= MAX_POLLS + 2 ==> run(link, state, replies).is_final(),
    decreases replies.len(),
{
    if replies.len() > 0 {
        law_execution_ends(link, state, replies.drop_last());
        law_step_makes_progress(link, run(link, state, replies.drop_last()), replies.last());
    }
}

/// An execution that starts with a circuit never counts more queries for
/// the result of its job than are allowed.
pub proof fn law_polls_stay_in_bounds(link: Link, circuit: Seq<OperationView>, replies: Seq<ReplyView>)
    ensures
        polls_in_bounds(run(link, first_step(link, circuit).0, replies)),
    decreases replies.len(),
{
    if replies.len() > 0 {
        law_polls_stay_in_bounds(link, circuit, replies.drop_last());
    }
}

/// Every request that a step asks for goes to the endpoint of the device
/// and carries the access token of the backend; a submission is a POST
/// request with a body, a query is a GET request without one.
pub proof fn law_requests_are_authenticated(link: Link, state: ExecutionView, reply: ReplyView)
    ensures
        match next_step(link, state, reply).1 {
            ActionView::Send { request, .. } => {
                &&& request.token == link.token
                &&& request.url.len() >= link.host.len()
                &&& request.url.subrange(0, link.host.len() as int) == link.host
                &&& request.body is Some <==> request.endpoint == Endpoint::Submit
                &&& request.method == Method::Post <==> request.endpoint == Endpoint::Submit
            },
            _ => true,
        },
{
}

/// A job is submitted only in answer to a query that found the device
/// online and with qubits enough. A device that is not online, or that has
/// fewer qubits than the backend needs, fails the execution as unavailable,
/// and no request follows.
pub proof fn law_unavailable_device_gets_no_job(link: Link, state: ExecutionView, reply: ReplyView)
    ensures
        next_step(link, state, reply).1 is Send && next_step(link, state, reply).1->request.endpoint
            == Endpoint::Submit ==> state is Created && resources_answer(reply) is Ok && available(
            resources_answer(reply)->Ok_0,
            link.qubits,
        ),
        state is Created && resources_answer(reply) is Ok && !available(
            resources_answer(reply)->Ok_0,
            link.qubits,
        ) ==> next_step(link, state, reply) == (
            ExecutionView::Failed,
            ActionView::Fail {
                error: BackendErrorView::ResourceUnavailable {
                    status: resources_answer(reply)->Ok_0.status,
                    available_qubits: resources_answer(reply)->Ok_0.available_qubits,
                },
            },
        ),
{
}

/// A job that the endpoint reports as cancelled ends the execution as
/// cancelled, and one that it reports as failed ends it with the message of
/// the endpoint: neither returns registers.
pub proof fn law_cancelled_job_returns_nothing(
    link: Link,
    state: ExecutionView,
    response: AqtRunResponseView,
    status_code: u16,
)
    requires
        state is Polling,
        accepted(Endpoint::Result, status_code),
    ensures
        response.response.status == "cancelled"@ ==> next_step(
            link,
            state,
            ReplyView::Run { status_code, response: Ok(response) },
        ) == (ExecutionView::Cancelled, ActionView::Fail { error: BackendErrorView::JobCancelled }),
        response.response.status == "error"@ ==> next_step(
            link,
            state,
            ReplyView::Run { status_code, response: Ok(response) },
        ) == (
            ExecutionView::Failed,
            ActionView::Fail {
                error: BackendErrorView::RemoteExecutionError { message: response.response.message },
            },
        ),
{
    reveal_strlit("cancelled");
    reveal_strlit("error");
    reveal_strlit("finished");
    if response.response.status == "cancelled"@ {
        assert(response.response.status.len() == 9);
    }
    if response.response.status == "error"@ {
        assert(response.response.status.len() == 5);
    }
}

/// Registers are returned by one step only: the one that finds the job
/// finished, with samples for its circuit. The execution is then finished.
pub proof fn law_registers_come_from_finished_job(link: Link, state: ExecutionView, reply: ReplyView)
    ensures
        next_step(link, state, reply).1 is Return <==> next_step(link, state, reply).0 is Finished
            && !(state is Finished),
        next_step(link, state, reply).1 is Return ==> {
            &&& state is Polling
            &&& run_answer(Endpoint::Result, reply) is Ok
            &&& run_answer(Endpoint::Result, reply)->Ok_0.response.status == "finished"@
            &&& run_answer(Endpoint::Result, reply)->Ok_0.response.result.contains_key(0)
        },
{
}

/// A finished job adds one entry for each of its samples to the register
/// that the readout names, each with one value for each qubit of the
/// device, and leaves every other register as it is.
pub proof fn law_recorded_shots(
    registers: RegistersView,
    readout: Seq<char>,
    samples: Seq<Seq<u32>>,
    qubits: nat,
)
    ensures
        recorded(registers, readout, samples, qubits).float == registers.float,
        recorded(registers, readout, samples, qubits).complex == registers.complex,
        recorded(registers, readout, samples, qubits).bit.dom() == registers.bit.dom(),
        forall|name: Seq<char>|
            registers.bit.contains_key(name) && name != readout ==> recorded(
                registers,
                readout,
                samples,
                qubits,
            ).bit[name] == registers.bit[name],
        registers.bit.contains_key(readout) ==> {
            let before = registers.bit[readout];
            let after = recorded(registers, readout, samples, qubits).bit[readout];
            &&& after.len() == before.len() + samples.flatten().len()
            &&& after.subrange(0, before.len() as int) == before
            &&& forall|i: int|
                before.len() <= i < after.len() ==> (#[trigger] after[i]).len() == qubits
        },
{
}

/// The course of a circuit that meets no obstacle: it is translated, the
/// device is found online with qubits enough, the job is submitted with the
/// translated instructions, its result is asked for after the first delay,
/// and the samples of the finished job fill the register that the circuit
/// names as readout.
pub proof fn law_finished_job_fills_readout(
    link: Link,
    circuit: Seq<OperationView>,
    details: AqtResourceDetailsView,
    submitted: AqtRunResponseView,
    finished: AqtRunResponseView,
)
    requires
        conversion(link.qubits, circuit) is Ok,
        available(details, link.qubits),
        finished.response.status == "finished"@,
        finished.response.result.contains_key(0),
    ensures
        ({
            let converted = conversion(link.qubits, circuit)->Ok_0;
            let start = first_step(link, circuit);
            let checked = next_step(
                link,
                start.0,
                ReplyView::Resources { status_code: 200, details: Ok(details) },
            );
            let queued = next_step(
                link,
                checked.0,
                ReplyView::Run { status_code: 200, response: Ok(submitted) },
            );
            let done = next_step(
                link,
                queued.0,
                ReplyView::Run { status_code: 200, response: Ok(finished) },
            );
            &&& start.1 == ActionView::Send { request: resources_request(link), delay_seconds: 0 }
            &&& checked.1 == ActionView::Send {
                request: submit_request(link, converted.data),
                delay_seconds: 0,
            }
            &&& queued.1 == ActionView::Send {
                request: result_request(link, submitted.job.job_id),
                delay_seconds: FIRST_DELAY,
            }
            &&& done == (
                ExecutionView::Finished,
                ActionView::Return {
                    registers: recorded(
                        converted.registers,
                        converted.readout,
                        finished.response.result[0],
                        link.qubits,
                    ),
                },
            )
        }),
{
}

} // verus!
