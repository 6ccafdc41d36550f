//! Translation of circuit operations into instructions of AQT devices.

use crate::errors::{BackendError, BackendErrorView};
use crate::operations::{circuit_view, Operation, OperationView, Parameter, ParameterView};
use vstd::prelude::*;
use vstd::string::StringExecFns;

verus! {

/// An angle of an instruction, in units of π.
///
/// The angles that the translation fixes are named. An angle that comes from
/// a circuit is held by the bit pattern of the circuit's number, together
/// with the division that turns it into units of the device.
#[derive(Debug, Clone, Copy, PartialEq, Eq, Structural)]
pub enum Angle {
    /// The angle 0.
    Zero,
    /// The angle 0.5.
    Half,
    /// The angle 1.
    One,
    /// The number with the bit pattern `radians`, divided by π.
    OverPi { radians: u64 },
    /// The number with the bit pattern `value`, divided by 2.
    OverTwo { value: u64 },
}

/// An instruction of an AQT device.
#[derive(Debug, Clone, PartialEq, Eq)]
pub enum AqtInstruction {
    /// Rotation around the z axis.
    RZ {
        /// angle of rotation
        phi: Angle,
        /// qubit where gate is applied
        qubit: u32,
    },
    /// Rotation around an axis in the xy plane.
    R {
        /// polar angle of the axis
        phi: Angle,
        /// angle of rotation
        theta: Angle,
        /// qubit where gate is applied
        qubit: u32,
    },
    /// The Mølmer-Sørensen gate.
    RXX {
        /// qubits where gate is applied
        qubits: Vec<u32>,
        /// angle of rotation
        theta: Angle,
    },
    /// Measurement of all qubits.
    MEASURE,
}

/// Mathematical value of an [`AqtInstruction`].
pub enum InstructionView {
    RZ { phi: Angle, qubit: u32 },
    R { phi: Angle, theta: Angle, qubit: u32 },
    RXX { qubits: Seq<u32>, theta: Angle },
    MEASURE,
}

impl View for AqtInstruction {
    type V = InstructionView;

    open spec fn view(&self) -> InstructionView {
        match *self {
            AqtInstruction::RZ { phi, qubit } => InstructionView::RZ { phi, qubit },
            AqtInstruction::R { phi, theta, qubit } => InstructionView::R { phi, theta, qubit },
            AqtInstruction::RXX { qubits, theta } => InstructionView::RXX { qubits: qubits@, theta },
            AqtInstruction::MEASURE => InstructionView::MEASURE,
        }
    }
}

/// The views of a list of instructions, in order.
pub open spec fn instructions_view(instructions: Seq<AqtInstruction>) -> Seq<InstructionView> {
    Seq::new(instructions.len(), |i: int| instructions[i]@)
}

/// The name under which this backend reports errors.
pub open spec fn backend_name() -> Seq<char> {
    "AQT"@
}

/// Whether an operation of this name passes through the translation without
/// an instruction and without an error.
pub open spec fn is_allowed(name: Seq<char>) -> bool {
    ||| name == "PragmaSetNumberOfMeasurements"@
    ||| name == "PragmaBoostNoise"@
    ||| name == "PragmaStopParallelBlock"@
    ||| name == "PragmaGlobalPhase"@
    ||| name == "DefinitionBit"@
    ||| name == "DefinitionFloat"@
    ||| name == "DefinitionComplex"@
    ||| name == "InputSymbolic"@
    ||| name == "InputBit"@
    ||| name == "PragmaRepeatedMeasurement"@
    ||| name == "PragmaStartDecompositionBlock"@
    ||| name == "PragmaStopDecompositionBlock"@
}

/// A number as instructions and jobs hold it: its lowest 32 bits.
pub open spec fn wire_number(number: int) -> u32 {
    (number % 0x1_0000_0000) as u32
}

/// The bit pattern of an angle given as a number, or the error for one given
/// as a symbol.
pub open spec fn angle_bits(theta: ParameterView) -> Result<u64, BackendErrorView> {
    match theta {
        ParameterView::Number { bits } => Ok(bits),
        ParameterView::Symbol { expression } => Err(BackendErrorView::SymbolicParameter { expression }),
    }
}

/// What one operation translates to: an instruction, nothing, or an error.
///
/// Rotations carry their angle divided by π, the variable Mølmer-Sørensen
/// gate carries its angle divided by 2, and every measurement measures all
/// qubits. An operation without an instruction of its own passes if its name
/// is allowed, and is an error otherwise.
pub open spec fn translation(op: OperationView) -> Result<Option<InstructionView>, BackendErrorView> {
    match op {
        OperationView::RotateZ { qubit, theta } => match angle_bits(theta) {
            Ok(radians) => Ok(
                Some(InstructionView::RZ { phi: Angle::OverPi { radians }, qubit: wire_number(qubit as int) }),
            ),
            Err(e) => Err(e),
        },
        OperationView::RotateX { qubit, theta } => match angle_bits(theta) {
            Ok(radians) => Ok(
                Some(
                    InstructionView::R {
                        phi: Angle::Zero,
                        theta: Angle::OverPi { radians },
                        qubit: wire_number(qubit as int),
                    },
                ),
            ),
            Err(e) => Err(e),
        },
        OperationView::RotateY { qubit, theta } => match angle_bits(theta) {
            Ok(radians) => Ok(
                Some(
                    InstructionView::R {
                        phi: Angle::Half,
                        theta: Angle::OverPi { radians },
                        qubit: wire_number(qubit as int),
                    },
                ),
            ),
            Err(e) => Err(e),
        },
        OperationView::PauliZ { qubit } => Ok(
            Some(InstructionView::RZ { phi: Angle::One, qubit: wire_number(qubit as int) }),
        ),
        OperationView::PauliX { qubit } => Ok(
            Some(InstructionView::R { phi: Angle::Zero, theta: Angle::One, qubit: wire_number(qubit as int) }),
        ),
        OperationView::PauliY { qubit } => Ok(
            Some(InstructionView::R { phi: Angle::Half, theta: Angle::One, qubit: wire_number(qubit as int) }),
        ),
        OperationView::VariableMSXX { control, target, theta } => match angle_bits(theta) {
            Ok(value) => Ok(
                Some(
                    InstructionView::RXX {
                        qubits: seq![wire_number(control as int), wire_number(target as int)],
                        theta: Angle::OverTwo { value },
                    },
                ),
            ),
            Err(e) => Err(e),
        },
        OperationView::MolmerSorensenXX { control, target } => Ok(
            Some(
                InstructionView::RXX {
                    qubits: seq![wire_number(control as int), wire_number(target as int)],
                    theta: Angle::Half,
                },
            ),
        ),
        OperationView::PragmaRepeatedMeasurement { .. } => Ok(Some(InstructionView::MEASURE)),
        OperationView::MeasureQubit { .. } => Ok(Some(InstructionView::MEASURE)),
        _ => if is_allowed(op.hqslang()) {
            Ok(None)
        } else {
            Err(
                BackendErrorView::OperationNotSupported {
                    backend_name: backend_name(),
                    operation_name: op.hqslang(),
                },
            )
        },
    }
}

/// Mathematical value of the outcome of translating one operation.
pub open spec fn outcome_view(outcome: Result<Option<AqtInstruction>, BackendError>) -> Result<
    Option<InstructionView>,
    BackendErrorView,
> {
    match outcome {
        Ok(Some(instruction)) => Ok(Some(instruction@)),
        Ok(None) => Ok(None),
        Err(e) => Err(e@),
    }
}

/// What a circuit translates to: the instructions of its operations in
/// order, or the error of the first operation that has one.
pub open spec fn circuit_translation(circuit: Seq<OperationView>) -> Result<
    Seq<InstructionView>,
    BackendErrorView,
>
    decreases circuit.len(),
{
    if circuit.len() == 0 {
        Ok(Seq::empty())
    } else {
        match circuit_translation(circuit.drop_last()) {
            Err(e) => Err(e),
            Ok(instructions) => match translation(circuit.last()) {
                Err(e) => Err(e),
                Ok(None) => Ok(instructions),
                Ok(Some(instruction)) => Ok(instructions.push(instruction)),
            },
        }
    }
}

/// Mathematical value of the outcome of translating a circuit.
pub open spec fn circuit_outcome_view(outcome: Result<Vec<AqtInstruction>, BackendError>) -> Result<
    Seq<InstructionView>,
    BackendErrorView,
> {
    match outcome {
        Ok(instructions) => Ok(instructions_view(instructions@)),
        Err(e) => Err(e@),
    }
}

/// Reduces a number to the 32 bits that instructions and jobs hold.
pub fn to_wire_number(number: usize) -> (low: u32)
    ensures
        low == wire_number(number as int),
{
    let wide: u64 = number as u64;
    let low: u64 = wide % 0x1_0000_0000u64;
    low as u32
}

/// Reads the bit pattern of an angle that must be a number.
fn to_angle_bits(theta: &Parameter) -> (bits: Result<u64, BackendError>)
    ensures
        match bits {
            Ok(b) => angle_bits(theta@) == Ok::<u64, BackendErrorView>(b),
            Err(e) => angle_bits(theta@) == Err::<u64, BackendErrorView>(e@),
        },
{
    match theta {
        Parameter::Number { bits } => Ok(*bits),
        Parameter::Symbol { expression } => Err(
            BackendError::SymbolicParameter { expression: expression.clone() },
        ),
    }
}

/// Tests whether an operation of the given name passes through the
/// translation without an instruction.
fn name_is_allowed(name: &String) -> (allowed: bool)
    ensures
        allowed == is_allowed(name@),
{
    *name == String::from_str("PragmaSetNumberOfMeasurements")
        || *name == String::from_str("PragmaBoostNoise")
        || *name == String::from_str("PragmaStopParallelBlock")
        || *name == String::from_str("PragmaGlobalPhase")
        || *name == String::from_str("DefinitionBit")
        || *name == String::from_str("DefinitionFloat")
        || *name == String::from_str("DefinitionComplex")
        || *name == String::from_str("InputSymbolic")
        || *name == String::from_str("InputBit")
        || *name == String::from_str("PragmaRepeatedMeasurement")
        || *name == String::from_str("PragmaStartDecompositionBlock")
        || *name == String::from_str("PragmaStopDecompositionBlock")
}

/// Builds the instruction of a Mølmer-Sørensen gate.
fn entangling(control: usize, target: usize, theta: Angle) -> (instruction: AqtInstruction)
    ensures
        instruction@ == (InstructionView::RXX {
            qubits: seq![wire_number(control as int), wire_number(target as int)],
            theta,
        }),
{
    let mut qubits: Vec<u32> = Vec::new();
    qubits.push(to_wire_number(control));
    qubits.push(to_wire_number(target));
    assert(qubits@ =~= seq![wire_number(control as int), wire_number(target as int)]);
    AqtInstruction::RXX { qubits, theta }
}

/// Converts one operation into an instruction for AQT devices.
///
/// Any measurement, whatever qubits it names, measures all qubits.
///
/// Returns the instruction, `None` for an operation that the device passes
/// over, and an error for an operation that it cannot execute or whose angle
/// is symbolic.
pub fn call_operation(operation: &Operation) -> (instruction: Result<
    Option<AqtInstruction>,
    BackendError,
>)
    ensures
        outcome_view(instruction) == translation(operation@),
{
    match operation {
        Operation::RotateZ { qubit, theta } => match to_angle_bits(theta) {
            Ok(radians) => Ok(
                Some(
                    AqtInstruction::RZ { phi: Angle::OverPi { radians }, qubit: to_wire_number(*qubit) },
                ),
            ),
            Err(e) => Err(e),
        },
        Operation::RotateX { qubit, theta } => match to_angle_bits(theta) {
            Ok(radians) => Ok(
                Some(
                    AqtInstruction::R {
                        phi: Angle::Zero,
                        theta: Angle::OverPi { radians },
                        qubit: to_wire_number(*qubit),
                    },
                ),
            ),
            Err(e) => Err(e),
        },
        Operation::RotateY { qubit, theta } => match to_angle_bits(theta) {
            Ok(radians) => Ok(
                Some(
                    AqtInstruction::R {
                        phi: Angle::Half,
                        theta: Angle::OverPi { radians },
                        qubit: to_wire_number(*qubit),
                    },
                ),
            ),
            Err(e) => Err(e),
        },
        Operation::PauliZ { qubit } => Ok(
            Some(AqtInstruction::RZ { phi: Angle::One, qubit: to_wire_number(*qubit) }),
        ),
        Operation::PauliX { qubit } => Ok(
            Some(
                AqtInstruction::R { phi: Angle::Zero, theta: Angle::One, qubit: to_wire_number(*qubit) },
            ),
        ),
        Operation::PauliY { qubit } => Ok(
            Some(
                AqtInstruction::R { phi: Angle::Half, theta: Angle::One, qubit: to_wire_number(*qubit) },
            ),
        ),
        Operation::VariableMSXX { control, target, theta } => match to_angle_bits(theta) {
            Ok(value) => Ok(Some(entangling(*control, *target, Angle::OverTwo { value }))),
            Err(e) => Err(e),
        },
        Operation::MolmerSorensenXX { control, target } => Ok(
            Some(entangling(*control, *target, Angle::Half)),
        ),
        Operation::PragmaRepeatedMeasurement { .. } => Ok(Some(AqtInstruction::MEASURE)),
        Operation::MeasureQubit { .. } => Ok(Some(AqtInstruction::MEASURE)),
        _ => {
            let name = operation.hqslang();
            if name_is_allowed(&name) {
                Ok(None)
            } else {
                Err(
                    BackendError::OperationNotSupported {
                        backend_name: String::from_str("AQT"),
                        operation_name: name,
                    },
                )
            }
        },
    }
}

/// Converts all operations of a circuit into instructions for AQT devices.
///
/// Returns the instructions in the order of their operations, or the error
/// of the first operation that cannot be converted.
pub fn call_circuit(circuit: &[Operation]) -> (instructions: Result<Vec<AqtInstruction>, BackendError>)
    ensures
        circuit_outcome_view(instructions) == circuit_translation(circuit_view(circuit@)),
{
    let mut circuit_vec: Vec<AqtInstruction> = Vec::new();
    let mut i: usize = 0;
    assert(instructions_view(circuit_vec@) =~= Seq::<InstructionView>::empty());
    while i < circuit.len()
        invariant
            0 <= i <= circuit.len(),
            circuit_translation(circuit_view(circuit@).take(i as int)) == Ok::<
                Seq<InstructionView>,
                BackendErrorView,
            >(instructions_view(circuit_vec@)),
        decreases circuit.len() - i,
    {
        let ghost done = circuit_view(circuit@).take(i as int);
        let ghost next = circuit_view(circuit@).take(i + 1);
        let ghost before = instructions_view(circuit_vec@);
        proof {
            assert(next.drop_last() =~= done);
        }
        match call_operation(&circuit[i]) {
            Ok(Some(instruction)) => {
                circuit_vec.push(instruction);
                proof {
                    assert(instructions_view(circuit_vec@) =~= before.push(instruction@));
                }
            },
            Ok(None) => {},
            Err(e) => {
                proof {
                    lemma_error_persists(circuit_view(circuit@), i + 1);
                }
                return Err(e);
            },
        }
        i += 1;
    }
    proof {
        assert(circuit_view(circuit@).take(i as int) =~= circuit_view(circuit@));
    }
    Ok(circuit_vec)
}

/// Whether an operation has an instruction of its own on AQT devices.
pub open spec fn has_instruction(op: OperationView) -> bool {
    ||| op is RotateZ
    ||| op is RotateX
    ||| op is RotateY
    ||| op is PauliX
    ||| op is PauliY
    ||| op is PauliZ
    ||| op is VariableMSXX
    ||| op is MolmerSorensenXX
    ||| op is PragmaRepeatedMeasurement
    ||| op is MeasureQubit
}

/// Translation is a function of the operation's value: two operations of
/// equal value have equal outcomes, whichever calls produced them.
pub proof fn law_translation_is_deterministic(
    first: Operation,
    second: Operation,
    first_outcome: Result<Option<AqtInstruction>, BackendError>,
    second_outcome: Result<Option<AqtInstruction>, BackendError>,
)
    requires
        first@ == second@,
        outcome_view(first_outcome) == translation(first@),
        outcome_view(second_outcome) == translation(second@),
    ensures
        outcome_view(first_outcome) == outcome_view(second_outcome),
{
}

/// An operation without an instruction of its own whose name is not allowed
/// is reported as not supported, under its name, and never passes silently;
/// and no other operation is reported so.
pub proof fn law_unsupported_operation_is_error(op: OperationView)
    ensures
        !has_instruction(op) && !is_allowed(op.hqslang()) <==> translation(op) == Err::<
            Option<InstructionView>,
            BackendErrorView,
        >(
            BackendErrorView::OperationNotSupported {
                backend_name: backend_name(),
                operation_name: op.hqslang(),
            },
        ),
{
}

/// An operation of an allowed name that has no instruction of its own
/// translates to nothing, without an error, whatever its fields hold.
pub proof fn law_allowed_operation_passes(op: OperationView)
    requires
        is_allowed(op.hqslang()),
        !has_instruction(op),
    ensures
        translation(op) == Ok::<Option<InstructionView>, BackendErrorView>(None),
{
}

/// The definitions, inputs and pragmas that a device passes over translate
/// to nothing, without an error, whatever their fields hold.
pub proof fn law_pragmas_pass(op: OperationView)
    requires
        op is PragmaSetNumberOfMeasurements || op is PragmaBoostNoise || op is PragmaStopParallelBlock
            || op is PragmaGlobalPhase || op is DefinitionBit || op is DefinitionFloat
            || op is DefinitionComplex || op is InputSymbolic || op is InputBit
            || op is PragmaStartDecompositionBlock || op is PragmaStopDecompositionBlock,
    ensures
        translation(op) == Ok::<Option<InstructionView>, BackendErrorView>(None),
{
}

/// A circuit translates without error exactly if each of its operations
/// does, and a circuit that fails reports the error of its first operation
/// that fails.
pub proof fn law_first_error_aborts(circuit: Seq<OperationView>)
    ensures
        circuit_translation(circuit) is Ok <==> forall|i: int|
            0 <= i < circuit.len() ==> (#[trigger] translation(circuit[i])) is Ok,
        circuit_translation(circuit) is Err ==> exists|i: int|
            0 <= i < circuit.len() && first_failure(circuit, i) && circuit_translation(circuit)
                == Err::<Seq<InstructionView>, BackendErrorView>(translation(circuit[i])->Err_0),
    decreases circuit.len(),
{
    if circuit.len() > 0 {
        let front = circuit.drop_last();
        law_first_error_aborts(front);
        assert(forall|i: int| 0 <= i < front.len() ==> front[i] == circuit[i]);
        if circuit_translation(front) is Err {
            let i = choose|i: int|
                0 <= i < front.len() && first_failure(front, i) && circuit_translation(front)
                    == Err::<Seq<InstructionView>, BackendErrorView>(translation(front[i])->Err_0);
            assert(first_failure(circuit, i));
        } else if translation(circuit.last()) is Err {
            assert(first_failure(circuit, circuit.len() - 1));
        }
    }
}

/// Whether the operation at `index` is the first of the circuit whose
/// translation is an error.
pub open spec fn first_failure(circuit: Seq<OperationView>, index: int) -> bool {
    &&& 0 <= index < circuit.len()
    &&& translation(circuit[index]) is Err
    &&& forall|j: int| 0 <= j < index ==> (#[trigger] translation(circuit[j])) is Ok
}

/// An error in the translation of the first `n` operations of a circuit is
/// the error of the whole circuit.
pub proof fn lemma_error_persists(circuit: Seq<OperationView>, n: int)
    requires
        0 <= n <= circuit.len(),
        circuit_translation(circuit.take(n)) is Err,
    ensures
        circuit_translation(circuit) == circuit_translation(circuit.take(n)),
    decreases circuit.len() - n,
{
    if n < circuit.len() {
        assert(circuit.take(n + 1).drop_last() =~= circuit.take(n));
        lemma_error_persists(circuit, n + 1);
    } else {
        assert(circuit.take(n) =~= circuit);
    }
}

} // verus!
