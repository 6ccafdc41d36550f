use roqoqo_aqt::execution::{FIRST_DELAY, MAX_POLLS, POLL_DELAY};
use roqoqo_aqt::{
    Action, Angle, AqtApi, AqtDevice, AqtInstruction, AqtJob, AqtQuerryResponse, AqtResourceDetails,
    AqtRunResponse, Backend, BackendError, Endpoint, Execution, Method, NetworkFailure, Operation,
    Registers, Reply, Request,
};
use std::collections::HashMap;

#[derive(Clone)]
struct MockAqtDevice {
    pub number_qubits: usize,
    pub mock_host: String,
}

impl AqtApi for MockAqtDevice {
    fn remote_host(&self) -> String {
        self.mock_host.to_string()
    }

    fn number_qubits(&self) -> usize {
        self.number_qubits
    }

    fn is_https(&self) -> bool {
        false
    }

    fn id(&self) -> String {
        "dummy".to_string()
    }
}

fn mock_backend(number_qubits: usize) -> Backend<MockAqtDevice> {
    let mock_device = MockAqtDevice { number_qubits, mock_host: "http://mock/mock/".to_string() };
    Backend::new(mock_device, Some("DummyAccessToken".to_string()), None).unwrap()
}

fn small_circuit() -> Vec<Operation> {
    vec![
        Operation::DefinitionBit { name: "ro".to_string(), length: 1, is_output: true },
        Operation::PauliX { qubit: 0 },
        Operation::PragmaRepeatedMeasurement { readout: "ro".to_string(), number_measurements: 5 },
    ]
}

fn resources(status: &str, available_qubits: u32) -> Reply {
    Reply::Resources {
        status_code: 200,
        details: Ok(AqtResourceDetails {
            id: "dummy".to_string(),
            name: "Noisy Simulator".to_string(),
            kind: "simulator".to_string(),
            status: status.to_string(),
            available_qubits,
        }),
    }
}

fn run_response(job_id: &str, status: &str, message: &str, samples: Option<Vec<Vec<u32>>>) -> AqtRunResponse {
    let mut result = HashMap::new();
    if let Some(samples) = samples {
        result.insert(0, samples);
    }
    AqtRunResponse {
        job: AqtJob { job_id: job_id.to_string(), ..AqtJob::default() },
        response: AqtQuerryResponse {
            status: status.to_string(),
            finished_count: 0,
            message: message.to_string(),
            result,
        },
    }
}

fn answered(job_id: &str, status: &str) -> Reply {
    Reply::Run { status_code: 200, response: Ok(run_response(job_id, status, "", None)) }
}

fn finished(job_id: &str, samples: Vec<Vec<u32>>) -> Reply {
    Reply::Run { status_code: 200, response: Ok(run_response(job_id, "finished", "", Some(samples))) }
}

struct Outcome {
    result: Result<Registers, BackendError>,
    requests: Vec<Request>,
    delays: Vec<u64>,
    state: Execution,
}

fn drive<T: AqtApi>(backend: &Backend<T>, circuit: &[Operation], replies: Vec<Reply>) -> Outcome {
    let mut requests = Vec::new();
    let mut delays = Vec::new();
    let mut replies = replies.into_iter();
    let (mut state, mut action) = backend.begin(circuit);
    loop {
        match action {
            Action::Send { request, delay_seconds } => {
                requests.push(request);
                delays.push(delay_seconds);
                let reply = replies.next().expect("the endpoint has no further answer");
                let next = backend.step(state, reply);
                state = next.0;
                action = next.1;
            }
            Action::Return { registers } => {
                return Outcome { result: Ok(registers), requests, delays, state };
            }
            Action::Fail { error } => {
                return Outcome { result: Err(error), requests, delays, state };
            }
            Action::Stop => panic!("an execution that had ended was stepped"),
        }
    }
}

#[test]
fn api_backend_test_small() {
    let device = AqtDevice { number_qubits: 1 };
    let backend = Backend::new(device, Some("token".to_string()), None).unwrap();
    let outcome = drive(
        &backend,
        &small_circuit(),
        vec![
            resources("online", 12),
            answered("job", "queued"),
            finished("job", vec![vec![1], vec![1], vec![1], vec![1], vec![1]]),
        ],
    );
    let registers = outcome.result.unwrap();
    assert_eq!(
        registers.bit.get("ro").unwrap(),
        &vec![vec![true], vec![true], vec![true], vec![true], vec![true]]
    );
    assert_eq!(registers.bit.len(), 1);
    assert_eq!(registers.float.len(), 0);
    assert_eq!(registers.complex.len(), 0);
    assert!(matches!(outcome.state, Execution::Finished));
}

#[test]
fn api_backend_test_small_two() {
    let device = AqtDevice { number_qubits: 1 };
    let backend = Backend::new(device, Some("token".to_string()), None).unwrap();
    let circuit = vec![
        Operation::DefinitionBit { name: "ro".to_string(), length: 1, is_output: true },
        Operation::PauliX { qubit: 0 },
        Operation::MeasureQubit { qubit: 0, readout: "ro".to_string(), readout_index: 0 },
    ];
    let outcome = drive(
        &backend,
        &circuit,
        vec![resources("online", 12), answered("job", "queued"), finished("job", vec![vec![1]])],
    );
    assert_eq!(outcome.requests[1].body.as_ref().unwrap().payload.circuits[0].repetitions, 1);
    let registers = outcome.result.unwrap();
    assert_eq!(registers.bit.get("ro").unwrap(), &vec![vec![true]]);
    assert_eq!(registers.bit.len(), 1);
}

#[test]
fn mock_test() {
    let backend = mock_backend(1);
    let outcome = drive(
        &backend,
        &small_circuit(),
        vec![
            resources("online", 12),
            answered("mock-id", "queued"),
            finished("mock-id", vec![vec![1], vec![1], vec![1], vec![1], vec![1]]),
        ],
    );
    assert_eq!(outcome.requests.len(), 3);
    let post = &outcome.requests[1];
    assert_eq!(post.endpoint, Endpoint::Submit);
    assert_eq!(post.url, "http://mock/mock/submit/qoqo-integration/dummy");
    let body = post.body.as_ref().unwrap();
    assert_eq!(body.job_type, "quantum_circuit");
    assert_eq!(body.label, "qoqo_aqt_backend");
    assert_eq!(body.payload.circuits.len(), 1);
    assert_eq!(body.payload.circuits[0].number_of_qubits, 1);
    assert_eq!(body.payload.circuits[0].repetitions, 5);
    assert_eq!(
        body.payload.circuits[0].quantum_circuit,
        vec![
            AqtInstruction::R { phi: Angle::Zero, theta: Angle::One, qubit: 0 },
            AqtInstruction::MEASURE,
        ]
    );
    let get = &outcome.requests[2];
    assert_eq!(get.endpoint, Endpoint::Result);
    assert_eq!(get.url, "http://mock/mock/result/mock-id");
    assert!(get.body.is_none());
    assert!(outcome.result.is_ok());
}

#[test]
fn api_status_test() {
    let backend = mock_backend(2);
    let outcome = drive(
        &backend,
        &small_circuit(),
        vec![resources("online", 12), Reply::Run { status_code: 404, response: Err("no body".to_string()) }],
    );
    assert_eq!(
        outcome.result.err(),
        Some(BackendError::NetworkError {
            endpoint: Endpoint::Submit,
            failure: NetworkFailure::Status { code: 404 },
        })
    );
    assert!(matches!(outcome.state, Execution::Failed));

    let outcome = drive(
        &backend,
        &small_circuit(),
        vec![
            resources("online", 12),
            answered("dummy_id", "queued"),
            Reply::Run { status_code: 404, response: Ok(run_response("dummy_id", "finished", "", Some(vec![]))) },
        ],
    );
    assert_eq!(outcome.requests[2].url, "http://mock/mock/result/dummy_id");
    assert_eq!(
        outcome.result.err(),
        Some(BackendError::NetworkError {
            endpoint: Endpoint::Result,
            failure: NetworkFailure::Status { code: 404 },
        })
    );

    let outcome = drive(
        &backend,
        &small_circuit(),
        vec![Reply::Resources { status_code: 404, details: Err("no body".to_string()) }],
    );
    assert_eq!(
        outcome.result.err(),
        Some(BackendError::NetworkError {
            endpoint: Endpoint::Resources,
            failure: NetworkFailure::Status { code: 404 },
        })
    );
    assert_eq!(outcome.requests.len(), 1);
}

#[test]
fn api_request_body_test() {
    let backend = mock_backend(2);
    let circuit = vec![
        Operation::DefinitionBit { name: "ro".to_string(), length: 2, is_output: true },
        Operation::PauliX { qubit: 0 },
        Operation::MolmerSorensenXX { control: 0, target: 1 },
        Operation::PragmaRepeatedMeasurement { readout: "ro".to_string(), number_measurements: 5 },
    ];
    let (state, action) = backend.begin(&circuit);
    let (_state, action) = match action {
        Action::Send { .. } => backend.step(state, resources("online", 12)),
        _ => panic!("no request for the state of the device"),
    };
    match action {
        Action::Send { request, delay_seconds } => {
            assert_eq!(delay_seconds, 0);
            assert_eq!(request.endpoint, Endpoint::Submit);
            assert_eq!(request.url, "http://mock/mock/submit/qoqo-integration/dummy");
            assert_eq!(request.token, "DummyAccessToken");
            let body = request.body.unwrap();
            assert_eq!(body.job_type, "quantum_circuit");
            assert_eq!(body.label, "qoqo_aqt_backend");
            assert_eq!(body.payload.circuits[0].number_of_qubits, 2);
            assert_eq!(body.payload.circuits[0].repetitions, 5);
            assert_eq!(
                body.payload.circuits[0].quantum_circuit,
                vec![
                    AqtInstruction::R { phi: Angle::Zero, theta: Angle::One, qubit: 0 },
                    AqtInstruction::RXX { qubits: vec![0, 1], theta: Angle::Half },
                    AqtInstruction::MEASURE,
                ]
            );
        }
        _ => panic!("no submission"),
    }
}

#[test]
fn api_resources_error_mock_test() {
    let backend = mock_backend(2);
    let outcome = drive(&backend, &small_circuit(), vec![resources("offline", 12)]);
    assert_eq!(
        outcome.result.err(),
        Some(BackendError::ResourceUnavailable { status: "offline".to_string(), available_qubits: 12 })
    );
    assert_eq!(outcome.requests.len(), 1);
    assert_eq!(outcome.requests[0].endpoint, Endpoint::Resources);
    assert_eq!(outcome.requests[0].url, "http://mock/mock/resources/dummy");

    let backend = mock_backend(10);
    let outcome = drive(&backend, &small_circuit(), vec![resources("online", 2)]);
    assert_eq!(
        outcome.result.err(),
        Some(BackendError::ResourceUnavailable { status: "online".to_string(), available_qubits: 2 })
    );
    assert_eq!(outcome.requests.len(), 1);
    assert!(matches!(outcome.state, Execution::Failed));
}

#[test]
fn api_backend_mock_test() {
    let backend = mock_backend(1);
    let outcome = drive(
        &backend,
        &small_circuit(),
        vec![
            resources("online", 12),
            answered("dummy_test_id", "queued"),
            finished("dummy_test_id", vec![vec![1], vec![1], vec![1], vec![1], vec![1]]),
        ],
    );
    let registers = outcome.result.unwrap();
    assert_eq!(
        registers.bit.get("ro").unwrap(),
        &vec![vec![true], vec![true], vec![true], vec![true], vec![true]]
    );

    let outcome = drive(
        &backend,
        &small_circuit(),
        vec![
            resources("online", 12),
            answered("dummy_test_id", "queued"),
            Reply::Run {
                status_code: 200,
                response: Ok(run_response("dummy_test_id", "error", "detailed error message", None)),
            },
        ],
    );
    assert_eq!(
        outcome.result.err(),
        Some(BackendError::RemoteExecutionError { message: "detailed error message".to_string() })
    );
    assert!(matches!(outcome.state, Execution::Failed));

    let outcome = drive(
        &backend,
        &small_circuit(),
        vec![resources("online", 12), answered("dummy_test_id", "queued"), answered("dummy_test_id", "cancelled")],
    );
    assert_eq!(outcome.result.err(), Some(BackendError::JobCancelled));
    assert!(matches!(outcome.state, Execution::Cancelled));
}

#[test]
fn test_five_shots_of_one() {
    let backend = mock_backend(1);
    let outcome = drive(
        &backend,
        &small_circuit(),
        vec![
            resources("online", 1),
            answered("job", "queued"),
            answered("job", "queued"),
            answered("job", "ongoing"),
            finished("job", vec![vec![1], vec![1], vec![1], vec![1], vec![1]]),
        ],
    );
    let registers = outcome.result.unwrap();
    let ro = registers.bit.get("ro").unwrap();
    assert_eq!(ro.len(), 5);
    for shot in ro {
        assert_eq!(shot, &vec![true]);
    }
    assert_eq!(outcome.delays, vec![0, 0, FIRST_DELAY, POLL_DELAY, POLL_DELAY]);
    assert_eq!(outcome.delays, vec![0, 0, 1, 20, 20]);
}

#[test]
fn test_cancelled_job_returns_no_registers() {
    let backend = mock_backend(1);
    let outcome = drive(
        &backend,
        &small_circuit(),
        vec![resources("online", 1), answered("job", "queued"), answered("job", "cancelled")],
    );
    assert_eq!(outcome.result.err(), Some(BackendError::JobCancelled));
    assert!(matches!(outcome.state, Execution::Cancelled));
}

#[test]
fn test_too_few_qubits_abort_before_submission() {
    let backend = mock_backend(3);
    let outcome = drive(&backend, &small_circuit(), vec![resources("online", 2)]);
    assert_eq!(
        outcome.result.err(),
        Some(BackendError::ResourceUnavailable { status: "online".to_string(), available_qubits: 2 })
    );
    assert!(outcome.requests.iter().all(|request| request.endpoint != Endpoint::Submit));
    assert_eq!(outcome.requests.len(), 1);

    let backend = mock_backend(2);
    let outcome = drive(
        &backend,
        &small_circuit(),
        vec![resources("online", 2), answered("job", "queued"), finished("job", vec![])],
    );
    assert!(outcome.result.is_ok());
}

#[test]
fn test_unsupported_operation_fails_before_any_request() {
    let backend = mock_backend(2);
    let circuit = vec![Operation::PauliX { qubit: 0 }, Operation::Other { hqslang: "CNOT".to_string() }];
    let outcome = drive(&backend, &circuit, vec![]);
    assert_eq!(
        outcome.result.err(),
        Some(BackendError::OperationNotSupported {
            backend_name: "AQT".to_string(),
            operation_name: "CNOT".to_string(),
        })
    );
    assert!(outcome.requests.is_empty());
    assert!(matches!(outcome.state, Execution::Failed));
}

#[test]
fn test_timeout_after_the_polls_allowed() {
    assert_eq!(MAX_POLLS, 100);
    let backend = mock_backend(1);
    let mut replies = vec![resources("online", 1), answered("job", "queued")];
    for i in 0..100 {
        replies.push(answered("job", if i % 3 == 0 { "queued" } else if i % 3 == 1 { "ongoing" } else { "" }));
    }
    let outcome = drive(&backend, &small_circuit(), replies);
    assert_eq!(outcome.result.err(), Some(BackendError::Timeout));
    assert!(matches!(outcome.state, Execution::TimedOut));
    let polls = outcome.requests.iter().filter(|request| request.endpoint == Endpoint::Result).count();
    assert_eq!(polls, 100);
    assert_eq!(outcome.requests.len(), 102);
}

#[test]
fn test_job_that_finishes_at_the_last_poll() {
    let backend = mock_backend(1);
    let mut replies = vec![resources("online", 1), answered("job", "queued")];
    for _ in 0..99 {
        replies.push(answered("job", "ongoing"));
    }
    replies.push(finished("job", vec![vec![0], vec![1]]));
    let outcome = drive(&backend, &small_circuit(), replies);
    let registers = outcome.result.unwrap();
    assert_eq!(registers.bit.get("ro").unwrap(), &vec![vec![false], vec![true]]);
    assert_eq!(outcome.requests.len(), 102);
}

#[test]
fn test_transport_failures() {
    let backend = mock_backend(1);
    let outcome =
        drive(&backend, &small_circuit(), vec![Reply::Unreachable { detail: "connection refused".to_string() }]);
    assert_eq!(
        outcome.result.err(),
        Some(BackendError::NetworkError {
            endpoint: Endpoint::Resources,
            failure: NetworkFailure::Transport { detail: "connection refused".to_string() },
        })
    );
    let outcome = drive(
        &backend,
        &small_circuit(),
        vec![resources("online", 1), Reply::Unreachable { detail: "timed out".to_string() }],
    );
    assert_eq!(
        outcome.result.err(),
        Some(BackendError::NetworkError {
            endpoint: Endpoint::Submit,
            failure: NetworkFailure::Transport { detail: "timed out".to_string() },
        })
    );
    let outcome = drive(
        &backend,
        &small_circuit(),
        vec![
            resources("online", 1),
            answered("job", "queued"),
            Reply::Run { status_code: 200, response: Err("not json".to_string()) },
        ],
    );
    assert_eq!(
        outcome.result.err(),
        Some(BackendError::NetworkError {
            endpoint: Endpoint::Result,
            failure: NetworkFailure::Transport { detail: "not json".to_string() },
        })
    );
    let outcome = drive(&backend, &small_circuit(), vec![answered("job", "queued")]);
    assert_eq!(
        outcome.result.err(),
        Some(BackendError::NetworkError { endpoint: Endpoint::Resources, failure: NetworkFailure::Unexpected })
    );
    let outcome = drive(&backend, &small_circuit(), vec![resources("online", 1), resources("online", 1)]);
    assert_eq!(
        outcome.result.err(),
        Some(BackendError::NetworkError { endpoint: Endpoint::Submit, failure: NetworkFailure::Unexpected })
    );
}

#[test]
fn test_status_codes() {
    let backend = mock_backend(1);
    let outcome = drive(
        &backend,
        &small_circuit(),
        vec![Reply::Resources {
            status_code: 201,
            details: Ok(AqtResourceDetails { status: "online".to_string(), available_qubits: 5, ..Default::default() }),
        }],
    );
    assert_eq!(
        outcome.result.err(),
        Some(BackendError::NetworkError {
            endpoint: Endpoint::Resources,
            failure: NetworkFailure::Status { code: 201 },
        })
    );
    let outcome = drive(
        &backend,
        &small_circuit(),
        vec![
            resources("online", 1),
            Reply::Run { status_code: 201, response: Ok(run_response("job", "queued", "", None)) },
            Reply::Run { status_code: 299, response: Ok(run_response("job", "finished", "", Some(vec![vec![1]]))) },
        ],
    );
    assert_eq!(outcome.result.unwrap().bit.get("ro").unwrap(), &vec![vec![true]]);
    for code in [199u16, 300, 500] {
        let outcome = drive(
            &backend,
            &small_circuit(),
            vec![
                resources("online", 1),
                Reply::Run { status_code: code, response: Ok(run_response("job", "queued", "", None)) },
            ],
        );
        assert_eq!(
            outcome.result.err(),
            Some(BackendError::NetworkError {
                endpoint: Endpoint::Submit,
                failure: NetworkFailure::Status { code },
            })
        );
    }
}

#[test]
fn test_finished_job_without_samples_for_the_circuit() {
    let backend = mock_backend(1);
    let outcome = drive(
        &backend,
        &small_circuit(),
        vec![resources("online", 1), answered("job", "queued"), answered("job", "finished")],
    );
    assert_eq!(outcome.result.err(), Some(BackendError::MissingResult));
}

#[test]
fn test_samples_for_a_register_that_was_not_declared() {
    let backend = mock_backend(2);
    let circuit = vec![
        Operation::DefinitionBit { name: "other".to_string(), length: 2, is_output: true },
        Operation::PragmaRepeatedMeasurement { readout: "ro".to_string(), number_measurements: 2 },
    ];
    let outcome = drive(
        &backend,
        &circuit,
        vec![resources("online", 2), answered("job", "queued"), finished("job", vec![vec![3], vec![1]])],
    );
    let registers = outcome.result.unwrap();
    assert!(!registers.bit.contains_key("ro"));
    assert_eq!(registers.bit.get("other").unwrap(), &Vec::<Vec<bool>>::new());
}

#[test]
fn test_samples_of_two_qubits() {
    let backend = mock_backend(2);
    let circuit = vec![
        Operation::DefinitionBit { name: "ro".to_string(), length: 2, is_output: true },
        Operation::PragmaRepeatedMeasurement { readout: "ro".to_string(), number_measurements: 4 },
    ];
    let outcome = drive(
        &backend,
        &circuit,
        vec![
            resources("online", 2),
            answered("job", "queued"),
            finished("job", vec![vec![0], vec![1], vec![2], vec![3]]),
        ],
    );
    assert_eq!(
        outcome.result.unwrap().bit.get("ro").unwrap(),
        &vec![vec![false, false], vec![true, false], vec![false, true], vec![true, true]]
    );
}

#[test]
fn test_every_request_carries_the_token() {
    let backend = mock_backend(1);
    let outcome = drive(
        &backend,
        &small_circuit(),
        vec![resources("online", 1), answered("job", "queued"), answered("job", "queued"), finished("job", vec![])],
    );
    assert_eq!(outcome.requests.len(), 4);
    for request in outcome.requests.iter() {
        assert_eq!(request.token, "DummyAccessToken");
        assert!(request.url.starts_with("http://mock/mock/"));
        assert_eq!(request.body.is_some(), request.endpoint == Endpoint::Submit);
        assert_eq!(request.method == Method::Post, request.endpoint == Endpoint::Submit);
        assert_eq!(request.method == Method::Get, request.endpoint != Endpoint::Submit);
    }
}

#[test]
fn test_ended_execution_stays_as_it_is() {
    let backend = mock_backend(1);
    let (state, action) = backend.step(Execution::Finished, resources("online", 1));
    assert!(matches!(state, Execution::Finished));
    assert!(matches!(action, Action::Stop));
    let (state, action) = backend.step(Execution::Failed, answered("job", "finished"));
    assert!(matches!(state, Execution::Failed));
    assert!(matches!(action, Action::Stop));
    let (state, action) = backend.step(Execution::Cancelled, answered("job", "finished"));
    assert!(matches!(state, Execution::Cancelled));
    assert!(matches!(action, Action::Stop));
    let (state, action) =
        backend.step(Execution::TimedOut, Reply::Unreachable { detail: String::new() });
    assert!(matches!(state, Execution::TimedOut));
    assert!(matches!(action, Action::Stop));
}

#[test]
fn test_get_resource_details() {
    let backend = mock_backend(2);
    let details = backend.get_resource_details(resources("offline", 12)).unwrap();
    assert_eq!(details.status, "offline");
    assert_eq!(details.available_qubits, 12);
    assert_eq!(details.name, "Noisy Simulator");
    assert_eq!(
        backend.get_resource_details(Reply::Resources { status_code: 404, details: Err(String::new()) }),
        Err(BackendError::NetworkError {
            endpoint: Endpoint::Resources,
            failure: NetworkFailure::Status { code: 404 },
        })
    );
    assert_eq!(
        backend.get_resource_details(Reply::Resources { status_code: 200, details: Err("eof".to_string()) }),
        Err(BackendError::NetworkError {
            endpoint: Endpoint::Resources,
            failure: NetworkFailure::Transport { detail: "eof".to_string() },
        })
    );
}

#[test]
fn test_post_job_and_get_result() {
    let backend = mock_backend(2);
    let res = backend.post_job(answered("dummy_test_id", "queued"));
    assert!(res.is_ok());
    let res = res.unwrap();
    assert_eq!(res.status(), "queued");
    assert_eq!(res.job_id(), "dummy_test_id");
    let res = backend.post_job(Reply::Run { status_code: 404, response: Err(String::new()) });
    assert_eq!(
        res.as_ref().err().map(|error| error.message()),
        Some("Failed to post job to server. Request to server failed with HTTP status code 404".to_string())
    );
    let res = backend.get_result(Reply::Run { status_code: 404, response: Err(String::new()) });
    assert_eq!(
        res.as_ref().err().map(|error| error.message()),
        Some("Failed to get result from server. Request to server failed with HTTP status code 404".to_string())
    );
    let res = backend.get_result(finished("dummy_id", vec![vec![1]])).unwrap();
    assert_eq!(res.status(), "finished");
    assert_eq!(res.response.result.get(&0), Some(&vec![vec![1]]));
    let res = backend.get_result(Reply::Unreachable { detail: "no route".to_string() });
    assert_eq!(
        res.err(),
        Some(BackendError::NetworkError {
            endpoint: Endpoint::Result,
            failure: NetworkFailure::Transport { detail: "no route".to_string() },
        })
    );
}
