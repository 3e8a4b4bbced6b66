//! The operation and circuit model.
//!
//! A circuit is an ordered sequence of operations.  The set of operation
//! kinds is closed: every kind the source model distinguishes is a variant
//! here, and any further kind is carried by [`Operation::Other`] under its
//! declared kind name, so that rejecting it can name the kind exactly.

use vstd::prelude::*;
use crate::values::FloatValue;

verus! {

/// One gate, measurement, pragma, or classical-register definition.
///
/// Qubit indices are non-negative integers, numeric parameters are
/// [`FloatValue`]s, register names are text used verbatim in the output,
/// and qubit-to-bit mappings are ordered associations of integers.
#[derive(Debug, PartialEq, Eq)]
pub enum Operation {
    RotateX { qubit: usize, theta: FloatValue },
    RotateY { qubit: usize, theta: FloatValue },
    RotateZ { qubit: usize, theta: FloatValue },
    PhaseShiftState1 { qubit: usize, theta: FloatValue },
    Hadamard { qubit: usize },
    PauliX { qubit: usize },
    PauliY { qubit: usize },
    PauliZ { qubit: usize },
    SGate { qubit: usize },
    TGate { qubit: usize },
    SqrtPauliX { qubit: usize },
    InvSqrtPauliX { qubit: usize },
    CNOT { control: usize, target: usize },
    ControlledPauliY { control: usize, target: usize },
    ControlledPauliZ { control: usize, target: usize },
    SWAP { control: usize, target: usize },
    MolmerSorensenXX { control: usize, target: usize },
    VariableMSXX { control: usize, target: usize, theta: FloatValue },
    ControlledPhaseShift { control: usize, target: usize, theta: FloatValue },
    SingleQubitGate {
        qubit: usize,
        alpha_r: FloatValue,
        alpha_i: FloatValue,
        beta_r: FloatValue,
        beta_i: FloatValue,
    },
    PragmaActiveReset { qubit: usize },
    PragmaConditional { condition_register: String, condition_index: usize, circuit: Vec<Operation> },
    PragmaRepeatedMeasurement {
        readout: String,
        number_measurements: usize,
        qubit_mapping: Option<Vec<(usize, usize)>>,
    },
    MeasureQubit { qubit: usize, readout: String, readout_index: usize },
    DefinitionFloat { name: String, length: usize, is_output: bool },
    DefinitionUsize { name: String, length: usize, is_output: bool },
    DefinitionBit { name: String, length: usize, is_output: bool },
    DefinitionComplex { name: String, length: usize, is_output: bool },
    PragmaSleep { qubits: Vec<usize>, sleep_time: FloatValue },
    PragmaGlobalPhase { phase: FloatValue },
    PragmaStopParallelBlock { qubits: Vec<usize>, execution_time: FloatValue },
    PragmaStopDecompositionBlock { qubits: Vec<usize> },
    PragmaSetNumberOfMeasurements { number_measurements: usize, readout: String },
    PragmaStartDecompositionBlock { qubits: Vec<usize>, reordering_dictionary: Vec<(usize, usize)> },
    InputSymbolic { name: String, input: FloatValue },
    ISwap { control: usize, target: usize },
    SqrtISwap { control: usize, target: usize },
    InvSqrtISwap { control: usize, target: usize },
    FSwap { control: usize, target: usize },
    Fsim { control: usize, target: usize, t: FloatValue, u: FloatValue, delta: FloatValue },
    PMInteraction { control: usize, target: usize, t: FloatValue },
    GivensRotation { control: usize, target: usize, theta: FloatValue, phi: FloatValue },
    GivensRotationLittleEndian { control: usize, target: usize, theta: FloatValue, phi: FloatValue },
    Qsim { control: usize, target: usize, x: FloatValue, y: FloatValue, z: FloatValue },
    XY { control: usize, target: usize, theta: FloatValue },
    SpinInteraction { control: usize, target: usize, x: FloatValue, y: FloatValue, z: FloatValue },
    PhaseShiftedControlledZ { control: usize, target: usize, phi: FloatValue },
    PhaseShiftedControlledPhase { control: usize, target: usize, theta: FloatValue, phi: FloatValue },
    RotateXY { qubit: usize, theta: FloatValue, phi: FloatValue },
    /// Any operation kind of the source model not listed above, under its
    /// declared kind name.
    Other { hqslang: String },
}

/// The declared kind name of an operation.
pub open spec fn spec_hqslang(op: Operation) -> Seq<char> {
    match op {
        Operation::RotateX { .. } => "RotateX"@,
        Operation::RotateY { .. } => "RotateY"@,
        Operation::RotateZ { .. } => "RotateZ"@,
        Operation::PhaseShiftState1 { .. } => "PhaseShiftState1"@,
        Operation::Hadamard { .. } => "Hadamard"@,
        Operation::PauliX { .. } => "PauliX"@,
        Operation::PauliY { .. } => "PauliY"@,
        Operation::PauliZ { .. } => "PauliZ"@,
        Operation::SGate { .. } => "SGate"@,
        Operation::TGate { .. } => "TGate"@,
        Operation::SqrtPauliX { .. } => "SqrtPauliX"@,
        Operation::InvSqrtPauliX { .. } => "InvSqrtPauliX"@,
        Operation::CNOT { .. } => "CNOT"@,
        Operation::ControlledPauliY { .. } => "ControlledPauliY"@,
        Operation::ControlledPauliZ { .. } => "ControlledPauliZ"@,
        Operation::SWAP { .. } => "SWAP"@,
        Operation::MolmerSorensenXX { .. } => "MolmerSorensenXX"@,
        Operation::VariableMSXX { .. } => "VariableMSXX"@,
        Operation::ControlledPhaseShift { .. } => "ControlledPhaseShift"@,
        Operation::SingleQubitGate { .. } => "SingleQubitGate"@,
        Operation::PragmaActiveReset { .. } => "PragmaActiveReset"@,
        Operation::PragmaConditional { .. } => "PragmaConditional"@,
        Operation::PragmaRepeatedMeasurement { .. } => "PragmaRepeatedMeasurement"@,
        Operation::MeasureQubit { .. } => "MeasureQubit"@,
        Operation::DefinitionFloat { .. } => "DefinitionFloat"@,
        Operation::DefinitionUsize { .. } => "DefinitionUsize"@,
        Operation::DefinitionBit { .. } => "DefinitionBit"@,
        Operation::DefinitionComplex { .. } => "DefinitionComplex"@,
        Operation::PragmaSleep { .. } => "PragmaSleep"@,
        Operation::PragmaGlobalPhase { .. } => "PragmaGlobalPhase"@,
        Operation::PragmaStopParallelBlock { .. } => "PragmaStopParallelBlock"@,
        Operation::PragmaStopDecompositionBlock { .. } => "PragmaStopDecompositionBlock"@,
        Operation::PragmaSetNumberOfMeasurements { .. } => "PragmaSetNumberOfMeasurements"@,
        Operation::PragmaStartDecompositionBlock { .. } => "PragmaStartDecompositionBlock"@,
        Operation::InputSymbolic { .. } => "InputSymbolic"@,
        Operation::ISwap { .. } => "ISwap"@,
        Operation::SqrtISwap { .. } => "SqrtISwap"@,
        Operation::InvSqrtISwap { .. } => "InvSqrtISwap"@,
        Operation::FSwap { .. } => "FSwap"@,
        Operation::Fsim { .. } => "Fsim"@,
        Operation::PMInteraction { .. } => "PMInteraction"@,
        Operation::GivensRotation { .. } => "GivensRotation"@,
        Operation::GivensRotationLittleEndian { .. } => "GivensRotationLittleEndian"@,
        Operation::Qsim { .. } => "Qsim"@,
        Operation::XY { .. } => "XY"@,
        Operation::SpinInteraction { .. } => "SpinInteraction"@,
        Operation::PhaseShiftedControlledZ { .. } => "PhaseShiftedControlledZ"@,
        Operation::PhaseShiftedControlledPhase { .. } => "PhaseShiftedControlledPhase"@,
        Operation::RotateXY { .. } => "RotateXY"@,
        Operation::Other { hqslang } => hqslang@,
    }
}

/// Operation kinds with a lowering rule that emits text.
pub open spec fn is_supported_kind(op: Operation) -> bool {
    match op {
        Operation::RotateX { .. } => true,
        Operation::RotateY { .. } => true,
        Operation::RotateZ { .. } => true,
        Operation::PhaseShiftState1 { .. } => true,
        Operation::Hadamard { .. } => true,
        Operation::PauliX { .. } => true,
        Operation::PauliY { .. } => true,
        Operation::PauliZ { .. } => true,
        Operation::SGate { .. } => true,
        Operation::TGate { .. } => true,
        Operation::SqrtPauliX { .. } => true,
        Operation::InvSqrtPauliX { .. } => true,
        Operation::CNOT { .. } => true,
        Operation::ControlledPauliY { .. } => true,
        Operation::ControlledPauliZ { .. } => true,
        Operation::SWAP { .. } => true,
        Operation::MolmerSorensenXX { .. } => true,
        Operation::VariableMSXX { .. } => true,
        Operation::ControlledPhaseShift { .. } => true,
        Operation::SingleQubitGate { .. } => true,
        Operation::PragmaActiveReset { .. } => true,
        Operation::PragmaConditional { .. } => true,
        Operation::PragmaRepeatedMeasurement { .. } => true,
        Operation::MeasureQubit { .. } => true,
        Operation::DefinitionFloat { .. } => true,
        Operation::DefinitionUsize { .. } => true,
        Operation::DefinitionBit { .. } => true,
        Operation::DefinitionComplex { .. } => true,
        _ => false,
    }
}

/// Operation kinds that are meaningful to the source model but have no
/// textual representation in the target dialect: lowering them yields the
/// empty string, not an error.
pub open spec fn is_allowed_noop(op: Operation) -> bool {
    match op {
        Operation::PragmaSleep { .. } => true,
        Operation::PragmaGlobalPhase { .. } => true,
        Operation::PragmaStopParallelBlock { .. } => true,
        Operation::PragmaStopDecompositionBlock { .. } => true,
        Operation::PragmaSetNumberOfMeasurements { .. } => true,
        Operation::PragmaStartDecompositionBlock { .. } => true,
        Operation::InputSymbolic { .. } => true,
        _ => false,
    }
}

impl Operation {
    /// The declared kind name of this operation.
    pub fn hqslang(&self) -> (r: String)
        ensures
            r@ == spec_hqslang(*self),
    {
        match self {
            Operation::RotateX { .. } => "RotateX".to_owned(),
            Operation::RotateY { .. } => "RotateY".to_owned(),
            Operation::RotateZ { .. } => "RotateZ".to_owned(),
            Operation::PhaseShiftState1 { .. } => "PhaseShiftState1".to_owned(),
            Operation::Hadamard { .. } => "Hadamard".to_owned(),
            Operation::PauliX { .. } => "PauliX".to_owned(),
            Operation::PauliY { .. } => "PauliY".to_owned(),
            Operation::PauliZ { .. } => "PauliZ".to_owned(),
            Operation::SGate { .. } => "SGate".to_owned(),
            Operation::TGate { .. } => "TGate".to_owned(),
            Operation::SqrtPauliX { .. } => "SqrtPauliX".to_owned(),
            Operation::InvSqrtPauliX { .. } => "InvSqrtPauliX".to_owned(),
            Operation::CNOT { .. } => "CNOT".to_owned(),
            Operation::ControlledPauliY { .. } => "ControlledPauliY".to_owned(),
            Operation::ControlledPauliZ { .. } => "ControlledPauliZ".to_owned(),
            Operation::SWAP { .. } => "SWAP".to_owned(),
            Operation::MolmerSorensenXX { .. } => "MolmerSorensenXX".to_owned(),
            Operation::VariableMSXX { .. } => "VariableMSXX".to_owned(),
            Operation::ControlledPhaseShift { .. } => "ControlledPhaseShift".to_owned(),
            Operation::SingleQubitGate { .. } => "SingleQubitGate".to_owned(),
            Operation::PragmaActiveReset { .. } => "PragmaActiveReset".to_owned(),
            Operation::PragmaConditional { .. } => "PragmaConditional".to_owned(),
            Operation::PragmaRepeatedMeasurement { .. } => "PragmaRepeatedMeasurement".to_owned(),
            Operation::MeasureQubit { .. } => "MeasureQubit".to_owned(),
            Operation::DefinitionFloat { .. } => "DefinitionFloat".to_owned(),
            Operation::DefinitionUsize { .. } => "DefinitionUsize".to_owned(),
            Operation::DefinitionBit { .. } => "DefinitionBit".to_owned(),
            Operation::DefinitionComplex { .. } => "DefinitionComplex".to_owned(),
            Operation::PragmaSleep { .. } => "PragmaSleep".to_owned(),
            Operation::PragmaGlobalPhase { .. } => "PragmaGlobalPhase".to_owned(),
            Operation::PragmaStopParallelBlock { .. } => "PragmaStopParallelBlock".to_owned(),
            Operation::PragmaStopDecompositionBlock { .. } => {
                "PragmaStopDecompositionBlock".to_owned()
            },
            Operation::PragmaSetNumberOfMeasurements { .. } => {
                "PragmaSetNumberOfMeasurements".to_owned()
            },
            Operation::PragmaStartDecompositionBlock { .. } => {
                "PragmaStartDecompositionBlock".to_owned()
            },
            Operation::InputSymbolic { .. } => "InputSymbolic".to_owned(),
            Operation::ISwap { .. } => "ISwap".to_owned(),
            Operation::SqrtISwap { .. } => "SqrtISwap".to_owned(),
            Operation::InvSqrtISwap { .. } => "InvSqrtISwap".to_owned(),
            Operation::FSwap { .. } => "FSwap".to_owned(),
            Operation::Fsim { .. } => "Fsim".to_owned(),
            Operation::PMInteraction { .. } => "PMInteraction".to_owned(),
            Operation::GivensRotation { .. } => "GivensRotation".to_owned(),
            Operation::GivensRotationLittleEndian { .. } => {
                "GivensRotationLittleEndian".to_owned()
            },
            Operation::Qsim { .. } => "Qsim".to_owned(),
            Operation::XY { .. } => "XY".to_owned(),
            Operation::SpinInteraction { .. } => "SpinInteraction".to_owned(),
            Operation::PhaseShiftedControlledZ { .. } => "PhaseShiftedControlledZ".to_owned(),
            Operation::PhaseShiftedControlledPhase { .. } => {
                "PhaseShiftedControlledPhase".to_owned()
            },
            Operation::RotateXY { .. } => "RotateXY".to_owned(),
            Operation::Other { hqslang } => hqslang.clone(),
        }
    }
}

/// An ordered sequence of operations.  Iteration order is the only
/// semantic order: translation preserves it exactly.
#[derive(Debug, PartialEq, Eq)]
pub struct Circuit {
    pub operations: Vec<Operation>,
}

impl Circuit {
    /// An empty circuit.
    pub fn new() -> (c: Circuit)
        ensures
            c.operations@ =~= Seq::<Operation>::empty(),
    {
        Circuit { operations: Vec::new() }
    }

    /// Append one operation at the end.
    pub fn push(&mut self, op: Operation)
        ensures
            final(self).operations@ == old(self).operations@.push(op),
    {
        self.operations.push(op);
    }

    /// The number of operations.
    pub fn len(&self) -> (n: usize)
        ensures
            n == self.operations@.len(),
    {
        self.operations.len()
    }
}

} // verus!
