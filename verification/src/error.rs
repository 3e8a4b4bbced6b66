//! Errors of the translation engine.

use vstd::prelude::*;

verus! {

/// An error returned by the translator.
#[derive(Debug, Clone, PartialEq, Eq)]
pub enum QasmError {
    /// The operation has no lowering rule and is not an allowed no-op.
    OperationNotSupported { backend: String, operation_kind: String },
    /// No gate definition template exists for the operation kind.
    GateDefinitionMissing { operation_kind: String },
    /// A symbolic parameter could not be resolved to a concrete number.
    NumericResolutionFailed,
}

/// The mathematical image of a [`QasmError`]: the same cases over
/// character sequences.
pub enum QasmErrorSpec {
    OperationNotSupported { backend: Seq<char>, operation_kind: Seq<char> },
    GateDefinitionMissing { operation_kind: Seq<char> },
    NumericResolutionFailed,
}

impl View for QasmError {
    type V = QasmErrorSpec;

    open spec fn view(&self) -> QasmErrorSpec {
        match self {
            QasmError::OperationNotSupported { backend, operation_kind } => {
                QasmErrorSpec::OperationNotSupported {
                    backend: backend@,
                    operation_kind: operation_kind@,
                }
            },
            QasmError::GateDefinitionMissing { operation_kind } => {
                QasmErrorSpec::GateDefinitionMissing { operation_kind: operation_kind@ }
            },
            QasmError::NumericResolutionFailed => QasmErrorSpec::NumericResolutionFailed,
        }
    }
}

impl QasmError {
    /// A readable description, for callers that report the error.
    pub fn describe(&self) -> (r: String)
        ensures
            r@.len() > 0,
    {
        let r = match self {
            QasmError::OperationNotSupported { backend, operation_kind } => {
                let mut s = "operation not supported by backend ".to_owned();
                s.append(backend.as_str());
                s.append(": ");
                s.append(operation_kind.as_str());
                s
            },
            QasmError::GateDefinitionMissing { operation_kind } => {
                let mut s = "no gate definition for ".to_owned();
                s.append(operation_kind.as_str());
                s
            },
            QasmError::NumericResolutionFailed => {
                "symbolic parameter does not resolve to a number".to_owned()
            },
        };
        proof {
            reveal_strlit("operation not supported by backend ");
            reveal_strlit("no gate definition for ");
            reveal_strlit("symbolic parameter does not resolve to a number");
        }
        r
    }
}

} // verus!
