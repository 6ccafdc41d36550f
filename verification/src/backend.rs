//! The AQT backend: the job that it builds from a circuit, the addresses of
//! its requests, and the answers of the endpoint.

use crate::devices::AqtApi;
use crate::errors::{BackendError, BackendErrorView};
use crate::interface::{
    call_operation, circuit_translation, instructions_view, to_wire_number, wire_number,
    AqtInstruction, InstructionView,
};
use crate::operations::{circuit_view, Operation, OperationView};
use crate::decoder::samples_view;
use crate::registers::{shots_view, Registers, RegistersView};
use std::collections::HashMap;
use vstd::prelude::*;
use vstd::string::StringExecFns;

verus! {

/// AQT backend
///
/// Holds the device that circuits run on and the token that gives access
/// to it.
#[derive(Debug, Clone, PartialEq, Eq)]
pub struct Backend<T: AqtApi> {
    /// The device that the backend sends circuits to
    pub device: T,
    /// Access token for identification with AQT devices
    pub access_token: String,
}

/// One circuit of a job, with the number of qubits it runs on and the
/// number of times it is run.
#[derive(Debug, Clone, PartialEq, Eq, Default)]
pub struct AqtCircuit {
    /// Number of qubits used by AQT device
    pub number_of_qubits: u32,
    /// Quantum circuit that is to be run
    pub quantum_circuit: Vec<AqtInstruction>,
    /// Number of times the circuit is run
    pub repetitions: u32,
}

/// The circuits of a job.
#[derive(Debug, Clone, PartialEq, Eq, Default)]
pub struct AqtPayload {
    /// Circuits sent to the AQT device
    pub circuits: Vec<AqtCircuit>,
}

/// The body of the request that submits a job to an AQT device.
#[derive(Debug, Clone, PartialEq, Eq)]
pub struct AqtRunData {
    /// Name of the job type
    pub job_type: String,
    /// Custom label given to job
    pub label: String,
    /// The circuits of the job
    pub payload: AqtPayload,
}

/// Mathematical value of an [`AqtCircuit`].
pub struct AqtCircuitView {
    pub number_of_qubits: u32,
    pub quantum_circuit: Seq<InstructionView>,
    pub repetitions: u32,
}

/// Mathematical value of an [`AqtPayload`].
pub struct AqtPayloadView {
    pub circuits: Seq<AqtCircuitView>,
}

/// Mathematical value of an [`AqtRunData`].
pub struct AqtRunDataView {
    pub job_type: Seq<char>,
    pub label: Seq<char>,
    pub payload: AqtPayloadView,
}

impl View for AqtCircuit {
    type V = AqtCircuitView;

    open spec fn view(&self) -> AqtCircuitView {
        AqtCircuitView {
            number_of_qubits: self.number_of_qubits,
            quantum_circuit: instructions_view(self.quantum_circuit@),
            repetitions: self.repetitions,
        }
    }
}

impl View for AqtPayload {
    type V = AqtPayloadView;

    open spec fn view(&self) -> AqtPayloadView {
        AqtPayloadView { circuits: Seq::new(self.circuits@.len(), |i: int| self.circuits@[i]@) }
    }
}

impl View for AqtRunData {
    type V = AqtRunDataView;

    open spec fn view(&self) -> AqtRunDataView {
        AqtRunDataView { job_type: self.job_type@, label: self.label@, payload: self.payload@ }
    }
}

/// What the endpoint says of a job.
#[derive(Debug, Clone, PartialEq, Eq, Default)]
pub struct AqtJob {
    /// The identifier under which the endpoint knows the job
    pub job_id: String,
    /// Name of the job type
    pub job_type: String,
    /// Custom label given to job
    pub label: String,
    /// The device that the job runs on
    pub resource_id: String,
    /// The workspace that the job belongs to
    pub workspace_id: String,
}

/// What the endpoint says of the state of a job.
#[derive(Debug, Clone, PartialEq, Eq, Default)]
pub struct AqtQuerryResponse {
    /// State of the job, such as "queued", "ongoing", "finished",
    /// "cancelled" or "error"
    pub status: String,
    /// Number of circuits of the job that have finished
    pub finished_count: u32,
    /// Explanation that comes with the state "error"
    pub message: String,
    /// For each circuit of the job, by its index, the samples of its shots
    pub result: HashMap<u32, Vec<Vec<u32>>>,
}

/// The answer of the endpoint to the submission of a job and to a query for
/// its result.
#[derive(Debug, Clone, PartialEq, Eq, Default)]
pub struct AqtRunResponse {
    /// The job that the answer speaks of
    pub job: AqtJob,
    /// The state of that job
    pub response: AqtQuerryResponse,
}

impl AqtRunResponse {
    /// Returns current job_id
    pub fn job_id(&self) -> (id: &String)
        ensures
            id == self.job.job_id,
    {
        &self.job.job_id
    }

    /// Returns the state of the job, such as "queued", "ongoing",
    /// "finished", "cancelled" or "error"
    pub fn status(&self) -> (status: &String)
        ensures
            status == self.response.status,
    {
        &self.response.status
    }

    /// Returns the explanation that comes with the state "error"
    pub fn message(&self) -> (message: &String)
        ensures
            message == self.response.message,
    {
        &self.response.message
    }
}

/// What the endpoint says of a device.
#[derive(Debug, Clone, PartialEq, Eq, Default)]
pub struct AqtResourceDetails {
    /// Identifier of the device
    pub id: String,
    /// Name of the device
    pub name: String,
    /// Kind of the device
    pub kind: String,
    /// State of the device, "online" or "offline"
    pub status: String,
    /// Number of qubits that the device offers
    pub available_qubits: u32,
}

/// Mathematical value of an [`AqtJob`].
pub struct AqtJobView {
    pub job_id: Seq<char>,
    pub job_type: Seq<char>,
    pub label: Seq<char>,
    pub resource_id: Seq<char>,
    pub workspace_id: Seq<char>,
}

/// Mathematical value of an [`AqtQuerryResponse`].
pub struct AqtQuerryResponseView {
    pub status: Seq<char>,
    pub finished_count: u32,
    pub message: Seq<char>,
    pub result: Map<u32, Seq<Seq<u32>>>,
}

/// Mathematical value of an [`AqtRunResponse`].
pub struct AqtRunResponseView {
    pub job: AqtJobView,
    pub response: AqtQuerryResponseView,
}

/// Mathematical value of an [`AqtResourceDetails`].
pub struct AqtResourceDetailsView {
    pub id: Seq<char>,
    pub name: Seq<char>,
    pub kind: Seq<char>,
    pub status: Seq<char>,
    pub available_qubits: u32,
}

impl View for AqtJob {
    type V = AqtJobView;

    open spec fn view(&self) -> AqtJobView {
        AqtJobView {
            job_id: self.job_id@,
            job_type: self.job_type@,
            label: self.label@,
            resource_id: self.resource_id@,
            workspace_id: self.workspace_id@,
        }
    }
}

impl View for AqtQuerryResponse {
    type V = AqtQuerryResponseView;

    open spec fn view(&self) -> AqtQuerryResponseView {
        AqtQuerryResponseView {
            status: self.status@,
            finished_count: self.finished_count,
            message: self.message@,
            result: self.result@.map_values(|samples: Vec<Vec<u32>>| samples_view(samples@)),
        }
    }
}

impl View for AqtRunResponse {
    type V = AqtRunResponseView;

    open spec fn view(&self) -> AqtRunResponseView {
        AqtRunResponseView { job: self.job@, response: self.response@ }
    }
}

impl View for AqtResourceDetails {
    type V = AqtResourceDetailsView;

    open spec fn view(&self) -> AqtResourceDetailsView {
        AqtResourceDetailsView {
            id: self.id@,
            name: self.name@,
            kind: self.kind@,
            status: self.status@,
            available_qubits: self.available_qubits,
        }
    }
}

/// What the contracts of a backend read of it and of its device.
pub struct Link {
    /// The endpoint of the device
    pub host: Seq<char>,
    /// The identifier of the device
    pub device_id: Seq<char>,
    /// The number of qubits of the device
    pub qubits: nat,
    /// The access token of the backend
    pub token: Seq<char>,
}

/// The number of shots that a circuit asks for: that of its last
/// measurement or pragma that sets one, and 0 if it has none.
pub open spec fn shots_of(circuit: Seq<OperationView>) -> usize
    decreases circuit.len(),
{
    if circuit.len() == 0 {
        0
    } else {
        match circuit.last() {
            OperationView::PragmaRepeatedMeasurement { number_measurements, .. } => number_measurements,
            OperationView::PragmaSetNumberOfMeasurements { number_measurements, .. } =>
                number_measurements,
            OperationView::MeasureQubit { .. } => 1,
            _ => shots_of(circuit.drop_last()),
        }
    }
}

/// The name of the register that receives the measured values: that of the
/// last measurement or pragma that names one, and the empty name if the
/// circuit has none.
pub open spec fn readout_of(circuit: Seq<OperationView>) -> Seq<char>
    decreases circuit.len(),
{
    if circuit.len() == 0 {
        Seq::empty()
    } else {
        match circuit.last() {
            OperationView::PragmaRepeatedMeasurement { readout, .. } => readout,
            OperationView::PragmaSetNumberOfMeasurements { readout, .. } => readout,
            OperationView::MeasureQubit { readout, .. } => readout,
            _ => readout_of(circuit.drop_last()),
        }
    }
}

/// The registers that one operation declares as output, added to those
/// given: an empty register under the name of the definition.
pub open spec fn declare(registers: RegistersView, op: OperationView) -> RegistersView {
    match op {
        OperationView::DefinitionBit { name, is_output, .. } => if is_output {
            RegistersView { bit: registers.bit.insert(name, Seq::empty()), ..registers }
        } else {
            registers
        },
        OperationView::DefinitionFloat { name, is_output, .. } => if is_output {
            RegistersView { float: registers.float.insert(name, Seq::empty()), ..registers }
        } else {
            registers
        },
        OperationView::DefinitionComplex { name, is_output, .. } => if is_output {
            RegistersView { complex: registers.complex.insert(name, Seq::empty()), ..registers }
        } else {
            registers
        },
        _ => registers,
    }
}

/// The output registers that a circuit declares, all of them empty.
pub open spec fn declared(circuit: Seq<OperationView>) -> RegistersView
    decreases circuit.len(),
{
    if circuit.len() == 0 {
        RegistersView::empty()
    } else {
        declare(declared(circuit.drop_last()), circuit.last())
    }
}

/// The job type of a circuit.
pub open spec fn job_type() -> Seq<char> {
    "quantum_circuit"@
}

/// The label that this backend gives to its jobs.
pub open spec fn job_label() -> Seq<char> {
    "qoqo_aqt_backend"@
}

/// The job that runs the given instructions on a device.
pub open spec fn job_of(number_qubits: nat, instructions: Seq<InstructionView>, shots: usize)
    -> AqtRunDataView {
    AqtRunDataView {
        job_type: job_type(),
        label: job_label(),
        payload: AqtPayloadView {
            circuits: seq![
                AqtCircuitView {
                    number_of_qubits: wire_number(number_qubits as int),
                    quantum_circuit: instructions,
                    repetitions: wire_number(shots as int),
                },
            ],
        },
    }
}

/// What a backend draws from a circuit: the job to submit, the output
/// registers that the circuit declares, and the name of the register that
/// receives the measured values.
pub struct Conversion {
    pub data: AqtRunDataView,
    pub registers: RegistersView,
    pub readout: Seq<char>,
}

/// The conversion of a circuit for a device with the given number of
/// qubits, or the error of the first operation that cannot be translated.
pub open spec fn conversion(number_qubits: nat, circuit: Seq<OperationView>) -> Result<
    Conversion,
    BackendErrorView,
> {
    match circuit_translation(circuit) {
        Ok(instructions) => Ok(
            Conversion {
                data: job_of(number_qubits, instructions, shots_of(circuit)),
                registers: declared(circuit),
                readout: readout_of(circuit),
            },
        ),
        Err(e) => Err(e),
    }
}

/// Mathematical value of the outcome of converting a circuit.
pub open spec fn conversion_view(outcome: Result<(AqtRunData, Registers, String), BackendError>)
    -> Result<Conversion, BackendErrorView> {
    match outcome {
        Ok((data, registers, readout)) => Ok(
            Conversion { data: data@, registers: registers@, readout: readout@ },
        ),
        Err(e) => Err(e@),
    }
}

/// The address of the query for the state of a device.
pub open spec fn resources_address(host: Seq<char>, device_id: Seq<char>) -> Seq<char> {
    host + "resources/"@ + device_id
}

/// The address to which jobs for a device are submitted.
pub open spec fn submit_address(host: Seq<char>, device_id: Seq<char>) -> Seq<char> {
    host + "submit/qoqo-integration/"@ + device_id
}

/// The address of the query for the state and result of a job.
pub open spec fn result_address(host: Seq<char>, job_id: Seq<char>) -> Seq<char> {
    host + "result/"@ + job_id
}

impl<T: AqtApi> Backend<T> {
    /// What the contracts read of this backend and of its device.
    pub open spec fn link(&self) -> Link {
        Link {
            host: self.device.host(),
            device_id: self.device.device_id(),
            qubits: self.device.qubits(),
            token: self.access_token@,
        }
    }

    /// Creates a new AQT backend.
    ///
    /// The access token is the one given, or else the one found in the
    /// environment. Without either there is no backend.
    pub fn new(device: T, access_token: Option<String>, environment_token: Option<String>) -> (backend:
        Result<Self, BackendError>)
        ensures
            match backend {
                Ok(b) => b.device == device && (match access_token {
                    Some(token) => b.access_token == token,
                    None => environment_token == Some(b.access_token),
                }),
                Err(e) => e == BackendError::MissingAuthentication && access_token is None
                    && environment_token is None,
            },
    {
        let access_token_internal: String = match access_token {
            Some(s) => s,
            None => match environment_token {
                Some(s) => s,
                None => {
                    return Err(BackendError::MissingAuthentication);
                },
            },
        };
        Ok(Self { device, access_token: access_token_internal })
    }

    /// Converts a circuit into the job that is submitted to the device, and
    /// sets up the output registers that the circuit declares.
    ///
    /// Returns the job, the registers, and the name of the register that
    /// receives the measured values; or the error of the first operation
    /// that cannot be translated.
    pub fn convert_circuit_to_aqt_instructions(&self, circuit: &[Operation]) -> (converted: Result<
        (AqtRunData, Registers, String),
        BackendError,
    >)
        ensures
            conversion_view(converted) == conversion(self.device.qubits(), circuit_view(circuit@)),
    {
        let mut registers = Registers::new();
        let mut number_measurements: usize = 0;
        let mut readout: String = String::new();
        let mut instruction_vec: Vec<AqtInstruction> = Vec::new();
        let ghost ops = circuit_view(circuit@);
        let mut i: usize = 0;
        proof {
            assert(instructions_view(instruction_vec@) =~= Seq::<InstructionView>::empty());
        }
        while i < circuit.len()
            invariant
                0 <= i <= circuit.len(),
                ops == circuit_view(circuit@),
                circuit_translation(ops.take(i as int)) == Ok::<Seq<InstructionView>, BackendErrorView>(
                    instructions_view(instruction_vec@),
                ),
                number_measurements == shots_of(ops.take(i as int)),
                readout@ == readout_of(ops.take(i as int)),
                registers@ == declared(ops.take(i as int)),
            decreases circuit.len() - i,
        {
            let op = &circuit[i];
            let ghost before = instructions_view(instruction_vec@);
            proof {
                assert(ops.take(i + 1).drop_last() =~= ops.take(i as int));
            }
            match op {
                Operation::PragmaRepeatedMeasurement { readout: name, number_measurements: shots } => {
                    number_measurements = *shots;
                    readout = name.clone();
                },
                Operation::PragmaSetNumberOfMeasurements { number_measurements: shots, readout: name } => {
                    number_measurements = *shots;
                    readout = name.clone();
                },
                Operation::MeasureQubit { readout: name, .. } => {
                    number_measurements = 1;
                    readout = name.clone();
                },
                Operation::DefinitionBit { name, is_output, .. } => {
                    if *is_output {
                        let empty: Vec<Vec<bool>> = Vec::new();
                        proof {
                            assert(shots_view(empty@) =~= Seq::<Seq<bool>>::empty());
                        }
                        registers.bit.insert(name.clone(), empty);
                    }
                },
                Operation::DefinitionFloat { name, is_output, .. } => {
                    if *is_output {
                        let empty: Vec<Vec<u64>> = Vec::new();
                        proof {
                            assert(shots_view(empty@) =~= Seq::<Seq<u64>>::empty());
                        }
                        registers.float.insert(name.clone(), empty);
                    }
                },
                Operation::DefinitionComplex { name, is_output, .. } => {
                    if *is_output {
                        let empty: Vec<Vec<(u64, u64)>> = Vec::new();
                        proof {
                            assert(shots_view(empty@) =~= Seq::<Seq<(u64, u64)>>::empty());
                        }
                        registers.complex.insert(name.clone(), empty);
                    }
                },
                _ => {},
            }
            match call_operation(op) {
                Ok(Some(instruction)) => {
                    instruction_vec.push(instruction);
                    proof {
                        assert(instructions_view(instruction_vec@) =~= before.push(instruction@));
                    }
                },
                Ok(None) => {},
                Err(e) => {
                    proof {
                        crate::interface::lemma_error_persists(ops, i + 1);
                    }
                    return Err(e);
                },
            }
            i += 1;
        }
        proof {
            assert(ops.take(i as int) =~= ops);
        }
        let aqt_instruction_circuit = AqtCircuit {
            number_of_qubits: to_wire_number(self.device.number_qubits()),
            quantum_circuit: instruction_vec,
            repetitions: to_wire_number(number_measurements),
        };
        let mut circuits: Vec<AqtCircuit> = Vec::new();
        circuits.push(aqt_instruction_circuit);
        let data = AqtRunData {
            job_type: String::from_str("quantum_circuit"),
            payload: AqtPayload { circuits },
            label: String::from_str("qoqo_aqt_backend"),
        };
        proof {
            assert(data@.payload.circuits =~= job_of(
                self.device.qubits(),
                instructions_view(instruction_vec@),
                number_measurements,
            ).payload.circuits);
        }
        Ok((data, registers, readout))
    }

    /// Returns the address of the query for the state of the device.
    pub fn resources_url(&self) -> (url: String)
        ensures
            url@ == resources_address(self.device.host(), self.device.device_id()),
    {
        let id = self.device.id();
        self.device.remote_host().concat("resources/").concat(id.as_str())
    }

    /// Returns the address to which jobs for the device are submitted.
    pub fn submit_url(&self) -> (url: String)
        ensures
            url@ == submit_address(self.device.host(), self.device.device_id()),
    {
        let id = self.device.id();
        self.device.remote_host().concat("submit/qoqo-integration/").concat(id.as_str())
    }

    /// Returns the address of the query for the state and result of the job
    /// with the given identifier.
    pub fn result_url(&self, job_id: &str) -> (url: String)
        ensures
            url@ == result_address(self.device.host(), job_id@),
    {
        self.device.remote_host().concat("result/").concat(job_id)
    }
}

/// Whether an operation says where measured values go and how many shots
/// are taken.
pub open spec fn sets_readout(op: OperationView) -> bool {
    op is PragmaRepeatedMeasurement || op is PragmaSetNumberOfMeasurements || op is MeasureQubit
}

/// The last operation that names a readout decides: it sets the name of the
/// readout and the number of shots, whatever came before it, and any other
/// operation leaves both as they are.
pub proof fn law_last_readout_wins(circuit: Seq<OperationView>, op: OperationView)
    ensures
        !sets_readout(op) ==> readout_of(circuit.push(op)) == readout_of(circuit) && shots_of(
            circuit.push(op),
        ) == shots_of(circuit),
        sets_readout(op) ==> readout_of(circuit.push(op)) == readout_of(seq![op]) && shots_of(
            circuit.push(op),
        ) == shots_of(seq![op]),
        op is MeasureQubit ==> shots_of(circuit.push(op)) == 1,
{
    assert(circuit.push(op).drop_last() =~= circuit);
    assert(seq![op].last() == op);
}

/// A circuit in which no operation names a readout asks for no shots and
/// has the empty name as its readout.
pub proof fn law_no_measurement_no_shots(circuit: Seq<OperationView>)
    requires
        forall|i: int| 0 <= i < circuit.len() ==> !sets_readout(#[trigger] circuit[i]),
    ensures
        shots_of(circuit) == 0,
        readout_of(circuit) == Seq::<char>::empty(),
    decreases circuit.len(),
{
    if circuit.len() > 0 {
        law_no_measurement_no_shots(circuit.drop_last());
    }
}

/// Whether an operation declares an output register of bits of this name.
pub open spec fn declares_bits(op: OperationView, name: Seq<char>) -> bool {
    op is DefinitionBit && op->DefinitionBit_name == name && op->DefinitionBit_is_output
}

/// Whether an operation declares an output register of floats of this name.
pub open spec fn declares_floats(op: OperationView, name: Seq<char>) -> bool {
    op is DefinitionFloat && op->DefinitionFloat_name == name && op->DefinitionFloat_is_output
}

/// Whether an operation declares an output register of complex numbers of
/// this name.
pub open spec fn declares_complex(op: OperationView, name: Seq<char>) -> bool {
    op is DefinitionComplex && op->DefinitionComplex_name == name && op->DefinitionComplex_is_output
}

/// The registers that a circuit declares are those that its definitions
/// mark as output, each under its name and of its kind, and all are empty.
pub proof fn law_declared_registers(circuit: Seq<OperationView>, name: Seq<char>)
    ensures
        declared(circuit).bit.contains_key(name) <==> exists|i: int|
            0 <= i < circuit.len() && declares_bits(#[trigger] circuit[i], name),
        declared(circuit).float.contains_key(name) <==> exists|i: int|
            0 <= i < circuit.len() && declares_floats(#[trigger] circuit[i], name),
        declared(circuit).complex.contains_key(name) <==> exists|i: int|
            0 <= i < circuit.len() && declares_complex(#[trigger] circuit[i], name),
        declared(circuit).bit.contains_key(name) ==> declared(circuit).bit[name].len() == 0,
        declared(circuit).float.contains_key(name) ==> declared(circuit).float[name].len() == 0,
        declared(circuit).complex.contains_key(name) ==> declared(circuit).complex[name].len() == 0,
    decreases circuit.len(),
{
    if circuit.len() > 0 {
        let front = circuit.drop_last();
        let last = circuit.len() - 1;
        law_declared_registers(front, name);
        assert(forall|i: int| 0 <= i < front.len() ==> front[i] == circuit[i]);
        if declared(circuit).bit.contains_key(name) {
            if declared(front).bit.contains_key(name) {
                let i = choose|i: int| 0 <= i < front.len() && declares_bits(#[trigger] front[i], name);
                assert(declares_bits(circuit[i], name));
            } else {
                assert(declares_bits(circuit[last], name));
            }
        }
        if declared(circuit).float.contains_key(name) {
            if declared(front).float.contains_key(name) {
                let i = choose|i: int|
                    0 <= i < front.len() && declares_floats(#[trigger] front[i], name);
                assert(declares_floats(circuit[i], name));
            } else {
                assert(declares_floats(circuit[last], name));
            }
        }
        if declared(circuit).complex.contains_key(name) {
            if declared(front).complex.contains_key(name) {
                let i = choose|i: int|
                    0 <= i < front.len() && declares_complex(#[trigger] front[i], name);
                assert(declares_complex(circuit[i], name));
            } else {
                assert(declares_complex(circuit[last], name));
            }
        }
        assert forall|i: int|
            0 <= i < circuit.len() && declares_bits(
                #[trigger] circuit[i],
                name,
            ) implies declared(circuit).bit.contains_key(name) by {
            if i < last {
                assert(declares_bits(front[i], name));
            }
        }
        assert forall|i: int|
            0 <= i < circuit.len() && declares_floats(
                #[trigger] circuit[i],
                name,
            ) implies declared(circuit).float.contains_key(name) by {
            if i < last {
                assert(declares_floats(front[i], name));
            }
        }
        assert forall|i: int|
            0 <= i < circuit.len() && declares_complex(
                #[trigger] circuit[i],
                name,
            ) implies declared(circuit).complex.contains_key(name) by {
            if i < last {
                assert(declares_complex(front[i], name));
            }
        }
    }
}

} // verus!
