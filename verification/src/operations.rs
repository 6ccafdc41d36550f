//! The operations of a quantum circuit, as far as an AQT backend reads them.

use vstd::prelude::*;
use vstd::string::StringExecFns;

verus! {

/// A real parameter of an operation: a number, or a symbol that has not been
/// bound to a number yet.
///
/// A number is held by the bit pattern of its IEEE 754 double-precision
/// encoding, so that it passes through the translation unchanged.
#[derive(Debug, Clone, PartialEq, Eq)]
pub enum Parameter {
    /// A number, given by its bit pattern.
    Number { bits: u64 },
    /// A symbolic expression.
    Symbol { expression: String },
}

/// Mathematical value of a [`Parameter`].
pub enum ParameterView {
    Number { bits: u64 },
    Symbol { expression: Seq<char> },
}

impl View for Parameter {
    type V = ParameterView;

    open spec fn view(&self) -> ParameterView {
        match *self {
            Parameter::Number { bits } => ParameterView::Number { bits },
            Parameter::Symbol { expression } => ParameterView::Symbol { expression: expression@ },
        }
    }
}

/// One operation of a circuit.
///
/// The gates and measurements that an AQT device executes, the pragmas and
/// definitions that it passes over, and, as [`Operation::Other`], every
/// further operation, known by its name alone.
#[derive(Debug, Clone, PartialEq, Eq)]
pub enum Operation {
    /// Rotation around the z axis by `theta` radians.
    RotateZ { qubit: usize, theta: Parameter },
    /// Rotation around the x axis by `theta` radians.
    RotateX { qubit: usize, theta: Parameter },
    /// Rotation around the y axis by `theta` radians.
    RotateY { qubit: usize, theta: Parameter },
    /// The Pauli X gate.
    PauliX { qubit: usize },
    /// The Pauli Y gate.
    PauliY { qubit: usize },
    /// The Pauli Z gate.
    PauliZ { qubit: usize },
    /// The Mølmer-Sørensen gate with a variable angle.
    VariableMSXX { control: usize, target: usize, theta: Parameter },
    /// The Mølmer-Sørensen gate with its fixed angle.
    MolmerSorensenXX { control: usize, target: usize },
    /// Measurement of all qubits, repeated `number_measurements` times.
    PragmaRepeatedMeasurement { readout: String, number_measurements: usize },
    /// Measurement of one qubit into position `readout_index` of a register.
    MeasureQubit { qubit: usize, readout: String, readout_index: usize },
    /// Sets the number of measurements of the circuit.
    PragmaSetNumberOfMeasurements { number_measurements: usize, readout: String },
    /// Definition of a register of bits.
    DefinitionBit { name: String, length: usize, is_output: bool },
    /// Definition of a register of floats.
    DefinitionFloat { name: String, length: usize, is_output: bool },
    /// Definition of a register of complex numbers.
    DefinitionComplex { name: String, length: usize, is_output: bool },
    /// Binds a symbol to a number.
    InputSymbolic { name: String, input: Parameter },
    /// Sets one bit of a register.
    InputBit { name: String, index: usize, value: bool },
    /// Boosts the noise of a simulated device.
    PragmaBoostNoise { noise_coefficient: Parameter },
    /// End of a block of operations that run in parallel.
    PragmaStopParallelBlock { qubits: Vec<usize>, execution_time: Parameter },
    /// A global phase.
    PragmaGlobalPhase { phase: Parameter },
    /// Start of the decomposition of a larger operation.
    PragmaStartDecompositionBlock { qubits: Vec<usize> },
    /// End of the decomposition of a larger operation.
    PragmaStopDecompositionBlock { qubits: Vec<usize> },
    /// Any other operation, identified by its name.
    Other { hqslang: String },
}

/// Mathematical value of an [`Operation`].
pub enum OperationView {
    RotateZ { qubit: usize, theta: ParameterView },
    RotateX { qubit: usize, theta: ParameterView },
    RotateY { qubit: usize, theta: ParameterView },
    PauliX { qubit: usize },
    PauliY { qubit: usize },
    PauliZ { qubit: usize },
    VariableMSXX { control: usize, target: usize, theta: ParameterView },
    MolmerSorensenXX { control: usize, target: usize },
    PragmaRepeatedMeasurement { readout: Seq<char>, number_measurements: usize },
    MeasureQubit { qubit: usize, readout: Seq<char>, readout_index: usize },
    PragmaSetNumberOfMeasurements { number_measurements: usize, readout: Seq<char> },
    DefinitionBit { name: Seq<char>, length: usize, is_output: bool },
    DefinitionFloat { name: Seq<char>, length: usize, is_output: bool },
    DefinitionComplex { name: Seq<char>, length: usize, is_output: bool },
    InputSymbolic { name: Seq<char>, input: ParameterView },
    InputBit { name: Seq<char>, index: usize, value: bool },
    PragmaBoostNoise { noise_coefficient: ParameterView },
    PragmaStopParallelBlock { qubits: Seq<usize>, execution_time: ParameterView },
    PragmaGlobalPhase { phase: ParameterView },
    PragmaStartDecompositionBlock { qubits: Seq<usize> },
    PragmaStopDecompositionBlock { qubits: Seq<usize> },
    Other { hqslang: Seq<char> },
}

impl View for Operation {
    type V = OperationView;

    open spec fn view(&self) -> OperationView {
        match *self {
            Operation::RotateZ { qubit, theta } => OperationView::RotateZ { qubit, theta: theta@ },
            Operation::RotateX { qubit, theta } => OperationView::RotateX { qubit, theta: theta@ },
            Operation::RotateY { qubit, theta } => OperationView::RotateY { qubit, theta: theta@ },
            Operation::PauliX { qubit } => OperationView::PauliX { qubit },
            Operation::PauliY { qubit } => OperationView::PauliY { qubit },
            Operation::PauliZ { qubit } => OperationView::PauliZ { qubit },
            Operation::VariableMSXX { control, target, theta } => OperationView::VariableMSXX {
                control,
                target,
                theta: theta@,
            },
            Operation::MolmerSorensenXX { control, target } => OperationView::MolmerSorensenXX {
                control,
                target,
            },
            Operation::PragmaRepeatedMeasurement { readout, number_measurements } =>
                OperationView::PragmaRepeatedMeasurement { readout: readout@, number_measurements },
            Operation::MeasureQubit { qubit, readout, readout_index } => OperationView::MeasureQubit {
                qubit,
                readout: readout@,
                readout_index,
            },
            Operation::PragmaSetNumberOfMeasurements { number_measurements, readout } =>
                OperationView::PragmaSetNumberOfMeasurements { number_measurements, readout: readout@ },
            Operation::DefinitionBit { name, length, is_output } => OperationView::DefinitionBit {
                name: name@,
                length,
                is_output,
            },
            Operation::DefinitionFloat { name, length, is_output } => OperationView::DefinitionFloat {
                name: name@,
                length,
                is_output,
            },
            Operation::DefinitionComplex { name, length, is_output } =>
                OperationView::DefinitionComplex { name: name@, length, is_output },
            Operation::InputSymbolic { name, input } => OperationView::InputSymbolic {
                name: name@,
                input: input@,
            },
            Operation::InputBit { name, index, value } => OperationView::InputBit {
                name: name@,
                index,
                value,
            },
            Operation::PragmaBoostNoise { noise_coefficient } => OperationView::PragmaBoostNoise {
                noise_coefficient: noise_coefficient@,
            },
            Operation::PragmaStopParallelBlock { qubits, execution_time } =>
                OperationView::PragmaStopParallelBlock { qubits: qubits@, execution_time: execution_time@ },
            Operation::PragmaGlobalPhase { phase } => OperationView::PragmaGlobalPhase { phase: phase@ },
            Operation::PragmaStartDecompositionBlock { qubits } =>
                OperationView::PragmaStartDecompositionBlock { qubits: qubits@ },
            Operation::PragmaStopDecompositionBlock { qubits } =>
                OperationView::PragmaStopDecompositionBlock { qubits: qubits@ },
            Operation::Other { hqslang } => OperationView::Other { hqslang: hqslang@ },
        }
    }
}

impl OperationView {
    /// The name by which the operation is known.
    pub open spec fn hqslang(self) -> Seq<char> {
        match self {
            OperationView::RotateZ { .. } => "RotateZ"@,
            OperationView::RotateX { .. } => "RotateX"@,
            OperationView::RotateY { .. } => "RotateY"@,
            OperationView::PauliX { .. } => "PauliX"@,
            OperationView::PauliY { .. } => "PauliY"@,
            OperationView::PauliZ { .. } => "PauliZ"@,
            OperationView::VariableMSXX { .. } => "VariableMSXX"@,
            OperationView::MolmerSorensenXX { .. } => "MolmerSorensenXX"@,
            OperationView::PragmaRepeatedMeasurement { .. } => "PragmaRepeatedMeasurement"@,
            OperationView::MeasureQubit { .. } => "MeasureQubit"@,
            OperationView::PragmaSetNumberOfMeasurements { .. } => "PragmaSetNumberOfMeasurements"@,
            OperationView::DefinitionBit { .. } => "DefinitionBit"@,
            OperationView::DefinitionFloat { .. } => "DefinitionFloat"@,
            OperationView::DefinitionComplex { .. } => "DefinitionComplex"@,
            OperationView::InputSymbolic { .. } => "InputSymbolic"@,
            OperationView::InputBit { .. } => "InputBit"@,
            OperationView::PragmaBoostNoise { .. } => "PragmaBoostNoise"@,
            OperationView::PragmaStopParallelBlock { .. } => "PragmaStopParallelBlock"@,
            OperationView::PragmaGlobalPhase { .. } => "PragmaGlobalPhase"@,
            OperationView::PragmaStartDecompositionBlock { .. } => "PragmaStartDecompositionBlock"@,
            OperationView::PragmaStopDecompositionBlock { .. } => "PragmaStopDecompositionBlock"@,
            OperationView::Other { hqslang } => hqslang,
        }
    }
}

impl Operation {
    /// Returns the name by which the operation is known.
    pub fn hqslang(&self) -> (name: String)
        ensures
            name@ == self@.hqslang(),
    {
        match self {
            Operation::RotateZ { .. } => String::from_str("RotateZ"),
            Operation::RotateX { .. } => String::from_str("RotateX"),
            Operation::RotateY { .. } => String::from_str("RotateY"),
            Operation::PauliX { .. } => String::from_str("PauliX"),
            Operation::PauliY { .. } => String::from_str("PauliY"),
            Operation::PauliZ { .. } => String::from_str("PauliZ"),
            Operation::VariableMSXX { .. } => String::from_str("VariableMSXX"),
            Operation::MolmerSorensenXX { .. } => String::from_str("MolmerSorensenXX"),
            Operation::PragmaRepeatedMeasurement { .. } => String::from_str(
                "PragmaRepeatedMeasurement",
            ),
            Operation::MeasureQubit { .. } => String::from_str("MeasureQubit"),
            Operation::PragmaSetNumberOfMeasurements { .. } => String::from_str(
                "PragmaSetNumberOfMeasurements",
            ),
            Operation::DefinitionBit { .. } => String::from_str("DefinitionBit"),
            Operation::DefinitionFloat { .. } => String::from_str("DefinitionFloat"),
            Operation::DefinitionComplex { .. } => String::from_str("DefinitionComplex"),
            Operation::InputSymbolic { .. } => String::from_str("InputSymbolic"),
            Operation::InputBit { .. } => String::from_str("InputBit"),
            Operation::PragmaBoostNoise { .. } => String::from_str("PragmaBoostNoise"),
            Operation::PragmaStopParallelBlock { .. } => String::from_str("PragmaStopParallelBlock"),
            Operation::PragmaGlobalPhase { .. } => String::from_str("PragmaGlobalPhase"),
            Operation::PragmaStartDecompositionBlock { .. } => String::from_str(
                "PragmaStartDecompositionBlock",
            ),
            Operation::PragmaStopDecompositionBlock { .. } => String::from_str(
                "PragmaStopDecompositionBlock",
            ),
            Operation::Other { hqslang } => hqslang.clone(),
        }
    }
}

/// The views of the operations of a circuit, in order.
pub open spec fn circuit_view(circuit: Seq<Operation>) -> Seq<OperationView> {
    Seq::new(circuit.len(), |i: int| circuit[i]@)
}

} // verus!
