//! End-to-end checks of the translation engine on concrete circuits.

use roqoqo_qasm::error::QasmError;
use roqoqo_qasm::interface::{call_circuit, call_operation, gate_definition};
use roqoqo_qasm::operations::{Circuit, Operation};
use roqoqo_qasm::values::FloatValue;

fn resolved(x: f64) -> FloatValue {
    FloatValue::Resolved(format!("{}", x))
}

fn lower(op: Operation) -> Result<String, QasmError> {
    call_operation(&op, "q")
}

#[test]
fn test_simple_single_qubit_gates() {
    assert_eq!(lower(Operation::Hadamard { qubit: 0 }).unwrap(), "h q[0];");
    assert_eq!(lower(Operation::PauliX { qubit: 1 }).unwrap(), "x q[1];");
    assert_eq!(lower(Operation::PauliY { qubit: 2 }).unwrap(), "y q[2];");
    assert_eq!(lower(Operation::PauliZ { qubit: 3 }).unwrap(), "z q[3];");
    assert_eq!(lower(Operation::SGate { qubit: 0 }).unwrap(), "s q[0];");
    assert_eq!(lower(Operation::TGate { qubit: 0 }).unwrap(), "t q[0];");
    assert_eq!(lower(Operation::SqrtPauliX { qubit: 0 }).unwrap(), "sx q[0];");
    assert_eq!(
        lower(Operation::InvSqrtPauliX { qubit: 0 }).unwrap(),
        "sxdg q[0];"
    );
    assert_eq!(
        lower(Operation::PragmaActiveReset { qubit: 4 }).unwrap(),
        "reset q[4];"
    );
}

#[test]
fn test_large_qubit_index() {
    assert_eq!(lower(Operation::PauliX { qubit: 123 }).unwrap(), "x q[123];");
    assert_eq!(
        lower(Operation::PauliX { qubit: 90 }).unwrap(),
        "x q[90];"
    );
}

#[test]
fn test_parametric_rotations() {
    let angle = std::f64::consts::FRAC_PI_2;
    assert_eq!(
        lower(Operation::RotateX { qubit: 0, theta: resolved(angle) }).unwrap(),
        "rx(1.5707963267948966) q[0];"
    );
    assert_eq!(
        lower(Operation::RotateY { qubit: 1, theta: resolved(angle) }).unwrap(),
        "ry(1.5707963267948966) q[1];"
    );
    assert_eq!(
        lower(Operation::RotateZ { qubit: 2, theta: resolved(angle) }).unwrap(),
        "rz(1.5707963267948966) q[2];"
    );
    assert_eq!(
        lower(Operation::PhaseShiftState1 { qubit: 0, theta: resolved(0.02) }).unwrap(),
        "p(0.02) q[0];"
    );
}

#[test]
fn test_symbolic_parameter_is_an_error() {
    let r = lower(Operation::RotateX {
        qubit: 0,
        theta: FloatValue::Symbolic("alpha".to_string()),
    });
    assert_eq!(r, Err(QasmError::NumericResolutionFailed));
    let r = lower(Operation::VariableMSXX {
        control: 0,
        target: 1,
        theta: FloatValue::Symbolic("beta".to_string()),
    });
    assert_eq!(r, Err(QasmError::NumericResolutionFailed));
}

#[test]
fn test_two_qubit_gates() {
    assert_eq!(
        lower(Operation::CNOT { control: 0, target: 1 }).unwrap(),
        "cx q[0],q[1];"
    );
    assert_eq!(
        lower(Operation::ControlledPauliY { control: 1, target: 0 }).unwrap(),
        "cy q[1],q[0];"
    );
    assert_eq!(
        lower(Operation::ControlledPauliZ { control: 0, target: 2 }).unwrap(),
        "cz q[0],q[2];"
    );
    assert_eq!(
        lower(Operation::SWAP { control: 0, target: 1 }).unwrap(),
        "swap q[0],q[1];"
    );
    assert_eq!(
        lower(Operation::MolmerSorensenXX { control: 0, target: 1 }).unwrap(),
        "rxx(pi/2) q[0],q[1];"
    );
    assert_eq!(
        lower(Operation::VariableMSXX { control: 0, target: 1, theta: resolved(0.23) }).unwrap(),
        "rxx(0.23) q[0],q[1];"
    );
    assert_eq!(
        lower(Operation::ControlledPhaseShift { control: 0, target: 1, theta: resolved(0.23) })
            .unwrap(),
        "cp(0.23) q[0],q[1];"
    );
}

#[test]
fn test_single_qubit_gate_u3_exact_text() {
    // A phase-free rotation: alpha = cos(theta/2), beta = sin(theta/2).
    let half: f64 = 0.5;
    let ar = half.cos();
    let br = half.sin();
    let op = Operation::SingleQubitGate {
        qubit: 0,
        alpha_r: resolved(ar),
        alpha_i: resolved(0.0),
        beta_r: resolved(br),
        beta_i: resolved(0.0),
    };
    let out = lower(op).unwrap();
    // The same decomposition, done directly on the floats.
    let theta = (ar * ar).sqrt().acos() * 2.0;
    let alpha_arg = 0.0f64.atan2(ar);
    let beta_arg = 0.0f64.atan2(br);
    let phi = alpha_arg * (-1.0) + beta_arg;
    let lambda = alpha_arg * (-1.0) - beta_arg;
    let expected = format!("u3({:.15},{:.15},{:.15}) q[0];", theta, phi, lambda);
    assert_eq!(out, expected);
}

#[test]
fn test_single_qubit_gate_u3_angles_within_tolerance() {
    // For alpha = cos(theta/2), beta = sin(theta/2) (real, phase-free) the
    // emitted u3 parameters are theta, 0, 0.
    let theta_in: f64 = 1.0;
    let op = Operation::SingleQubitGate {
        qubit: 0,
        alpha_r: resolved((theta_in / 2.0).cos()),
        alpha_i: resolved(0.0),
        beta_r: resolved((theta_in / 2.0).sin()),
        beta_i: resolved(0.0),
    };
    let out = lower(op).unwrap();
    let inner = out
        .strip_prefix("u3(")
        .unwrap()
        .strip_suffix(") q[0];")
        .unwrap();
    let parts: Vec<f64> = inner.split(',').map(|p| p.parse().unwrap()).collect();
    assert_eq!(parts.len(), 3);
    assert!((parts[0] - theta_in).abs() < 1e-9);
    assert!(parts[1].abs() < 1e-9);
    assert!(parts[2].abs() < 1e-9);
}

#[test]
fn test_single_qubit_gate_symbolic_is_an_error() {
    let op = Operation::SingleQubitGate {
        qubit: 0,
        alpha_r: resolved(1.0),
        alpha_i: FloatValue::Symbolic("x".to_string()),
        beta_r: resolved(0.0),
        beta_i: resolved(0.0),
    };
    assert_eq!(lower(op), Err(QasmError::NumericResolutionFailed));
}

#[test]
fn test_measure_qubit() {
    let op = Operation::MeasureQubit {
        qubit: 0,
        readout: "ro".to_string(),
        readout_index: 1,
    };
    assert_eq!(lower(op).unwrap(), "measure q[0] -> ro[1];");
}

#[test]
fn test_definitions_all_collapse_to_creg() {
    assert_eq!(
        lower(Operation::DefinitionFloat { name: "rf".to_string(), length: 3, is_output: false })
            .unwrap(),
        "creg rf[3];"
    );
    assert_eq!(
        lower(Operation::DefinitionUsize { name: "ru".to_string(), length: 2, is_output: true })
            .unwrap(),
        "creg ru[2];"
    );
    assert_eq!(
        lower(Operation::DefinitionBit { name: "ro".to_string(), length: 2, is_output: true })
            .unwrap(),
        "creg ro[2];"
    );
    assert_eq!(
        lower(Operation::DefinitionComplex { name: "rc".to_string(), length: 4, is_output: false })
            .unwrap(),
        "creg rc[4];"
    );
}

#[test]
fn test_repeated_measurement_none_vs_mapping() {
    // No mapping: exactly one measure-all line.
    let none = Operation::PragmaRepeatedMeasurement {
        readout: "ro".to_string(),
        number_measurements: 20,
        qubit_mapping: None,
    };
    assert_eq!(lower(none).unwrap(), "measure q -> ro;");
    // An empty mapping is distinguished from no mapping: zero lines.
    let empty = Operation::PragmaRepeatedMeasurement {
        readout: "ro".to_string(),
        number_measurements: 20,
        qubit_mapping: Some(vec![]),
    };
    assert_eq!(lower(empty).unwrap(), "");
    // K entries: K lines, in the mapping's own order.
    let mapped = Operation::PragmaRepeatedMeasurement {
        readout: "ro".to_string(),
        number_measurements: 20,
        qubit_mapping: Some(vec![(0, 1), (1, 0)]),
    };
    assert_eq!(
        lower(mapped).unwrap(),
        "measure q[0] -> ro[1];\nmeasure q[1] -> ro[0];\n"
    );
}

#[test]
fn test_conditional_block_guards_every_line() {
    let op = Operation::PragmaConditional {
        condition_register: "c".to_string(),
        condition_index: 0,
        circuit: vec![Operation::PauliX { qubit: 0 }, Operation::PauliX { qubit: 1 }],
    };
    assert_eq!(
        lower(op).unwrap(),
        "if(c[0]==1) x q[0];\nif(c[0]==1) x q[1];"
    );
}

#[test]
fn test_conditional_block_empty_circuit() {
    let op = Operation::PragmaConditional {
        condition_register: "c".to_string(),
        condition_index: 2,
        circuit: vec![],
    };
    assert_eq!(lower(op).unwrap(), "");
}

#[test]
fn test_conditional_block_empty_inner_statement_stays_guarded() {
    // An allowed no-op inside a conditional still produces a guarded empty
    // statement.
    let op = Operation::PragmaConditional {
        condition_register: "c".to_string(),
        condition_index: 0,
        circuit: vec![Operation::PragmaGlobalPhase { phase: resolved(0.1) }],
    };
    assert_eq!(lower(op).unwrap(), "if(c[0]==1) ");
}

#[test]
fn test_conditional_block_nested() {
    let inner = Operation::PragmaConditional {
        condition_register: "d".to_string(),
        condition_index: 1,
        circuit: vec![Operation::PauliZ { qubit: 0 }],
    };
    let op = Operation::PragmaConditional {
        condition_register: "c".to_string(),
        condition_index: 0,
        circuit: vec![inner],
    };
    assert_eq!(lower(op).unwrap(), "if(c[0]==1) if(d[1]==1) z q[0];");
}

#[test]
fn test_conditional_block_propagates_inner_error() {
    let op = Operation::PragmaConditional {
        condition_register: "c".to_string(),
        condition_index: 0,
        circuit: vec![Operation::ISwap { control: 0, target: 1 }],
    };
    assert_eq!(
        lower(op),
        Err(QasmError::OperationNotSupported {
            backend: "QASM".to_string(),
            operation_kind: "ISwap".to_string(),
        })
    );
}

#[test]
fn test_allowed_noop_pragmas_lower_to_empty() {
    let noops = vec![
        Operation::PragmaSleep { qubits: vec![0, 1], sleep_time: resolved(0.001) },
        Operation::PragmaGlobalPhase { phase: resolved(0.3) },
        Operation::PragmaStopParallelBlock { qubits: vec![0], execution_time: resolved(0.01) },
        Operation::PragmaStopDecompositionBlock { qubits: vec![0, 1] },
        Operation::PragmaSetNumberOfMeasurements {
            number_measurements: 10,
            readout: "ro".to_string(),
        },
        Operation::PragmaStartDecompositionBlock {
            qubits: vec![0, 1],
            reordering_dictionary: vec![(0, 1), (1, 0)],
        },
        Operation::InputSymbolic { name: "alpha".to_string(), input: resolved(0.2) },
    ];
    for op in noops {
        assert_eq!(call_operation(&op, "q").unwrap(), "");
    }
}

#[test]
fn test_unsupported_kinds_are_rejected_with_their_name() {
    let cases = vec![
        (Operation::ISwap { control: 0, target: 1 }, "ISwap"),
        (Operation::SqrtISwap { control: 0, target: 1 }, "SqrtISwap"),
        (Operation::FSwap { control: 0, target: 1 }, "FSwap"),
        (
            Operation::RotateXY { qubit: 0, theta: resolved(0.23), phi: resolved(0.23) },
            "RotateXY",
        ),
        (
            Operation::PhaseShiftedControlledZ { control: 0, target: 1, phi: resolved(0.1) },
            "PhaseShiftedControlledZ",
        ),
        (Operation::Other { hqslang: "Bogoliubov".to_string() }, "Bogoliubov"),
    ];
    for (op, name) in cases {
        assert_eq!(
            call_operation(&op, "q"),
            Err(QasmError::OperationNotSupported {
                backend: "QASM".to_string(),
                operation_kind: name.to_string(),
            })
        );
    }
}

fn example_circuit() -> Circuit {
    let mut circuit = Circuit::new();
    circuit.push(Operation::DefinitionBit { name: "ro".to_string(), length: 2, is_output: true });
    circuit.push(Operation::RotateX { qubit: 0, theta: resolved(std::f64::consts::FRAC_PI_2) });
    circuit.push(Operation::PauliX { qubit: 1 });
    circuit.push(Operation::PragmaRepeatedMeasurement {
        readout: "ro".to_string(),
        number_measurements: 20,
        qubit_mapping: None,
    });
    circuit
}

#[test]
fn test_call_circuit_end_to_end() {
    let lines = call_circuit(&example_circuit(), "q").unwrap();
    assert_eq!(
        lines,
        vec![
            "creg ro[2];".to_string(),
            "rx(1.5707963267948966) q[0];".to_string(),
            "x q[1];".to_string(),
            "measure q -> ro;".to_string(),
        ]
    );
}

#[test]
fn test_call_circuit_empty() {
    let circuit = Circuit::new();
    assert_eq!(call_circuit(&circuit, "q").unwrap(), Vec::<String>::new());
}

#[test]
fn test_register_name_is_used_verbatim() {
    assert_eq!(
        call_operation(&Operation::PauliX { qubit: 1 }, "qr").unwrap(),
        "x qr[1];"
    );
    assert_eq!(
        call_operation(
            &Operation::MeasureQubit { qubit: 0, readout: "ro".to_string(), readout_index: 0 },
            "register"
        )
        .unwrap(),
        "measure register[0] -> ro[0];"
    );
}

#[test]
fn test_call_circuit_is_deterministic() {
    let first = call_circuit(&example_circuit(), "q").unwrap();
    let second = call_circuit(&example_circuit(), "q").unwrap();
    assert_eq!(first, second);
}

#[test]
fn test_call_circuit_fails_fast_on_unsupported() {
    let mut circuit = Circuit::new();
    circuit.push(Operation::PauliX { qubit: 0 });
    circuit.push(Operation::ISwap { control: 0, target: 1 });
    circuit.push(Operation::PauliX { qubit: 1 });
    let r = call_circuit(&circuit, "q");
    assert_eq!(
        r,
        Err(QasmError::OperationNotSupported {
            backend: "QASM".to_string(),
            operation_kind: "ISwap".to_string(),
        })
    );
}

#[test]
fn test_noop_still_occupies_a_slot_in_circuit_output() {
    let mut circuit = Circuit::new();
    circuit.push(Operation::PauliX { qubit: 0 });
    circuit.push(Operation::PragmaGlobalPhase { phase: resolved(0.1) });
    circuit.push(Operation::PauliY { qubit: 0 });
    let lines = call_circuit(&circuit, "q").unwrap();
    assert_eq!(
        lines,
        vec!["x q[0];".to_string(), "".to_string(), "y q[0];".to_string()]
    );
}

#[test]
fn test_gate_definitions() {
    assert_eq!(
        gate_definition(&Operation::RotateX { qubit: 0, theta: resolved(0.1) }).unwrap(),
        "gate rx(theta) a { u3(theta, -pi/2,pi/2) a; }\n"
    );
    assert_eq!(
        gate_definition(&Operation::Hadamard { qubit: 0 }).unwrap(),
        "gate h a { u2(0,pi) a; }\n"
    );
    assert_eq!(
        gate_definition(&Operation::CNOT { control: 0, target: 1 }).unwrap(),
        "gate cx c,t { CX c,t; }\n"
    );
    assert_eq!(
        gate_definition(&Operation::ISwap { control: 0, target: 1 }).unwrap(),
        "gate iswap a,b { rx(pi/2) a; CX a,b; rx(-pi/2) a; ry(-pi/2) b; CX a,b; rx(-pi/2) a; }\n"
    );
    assert_eq!(
        gate_definition(&Operation::RotateXY { qubit: 0, theta: resolved(0.1), phi: resolved(0.2) })
            .unwrap(),
        "gate rxy(theta,phi) q { u3(theta,phi-pi/2,pi/2-phi) q; }\n"
    );
}

#[test]
fn test_gate_definition_missing() {
    assert_eq!(
        gate_definition(&Operation::PauliX { qubit: 0 }),
        Err(QasmError::GateDefinitionMissing { operation_kind: "PauliX".to_string() })
    );
    assert_eq!(
        gate_definition(&Operation::Other { hqslang: "Bogoliubov".to_string() }),
        Err(QasmError::GateDefinitionMissing { operation_kind: "Bogoliubov".to_string() })
    );
}

#[test]
fn test_hqslang_names() {
    assert_eq!(Operation::PauliX { qubit: 0 }.hqslang(), "PauliX");
    assert_eq!(
        Operation::PragmaRepeatedMeasurement {
            readout: "ro".to_string(),
            number_measurements: 1,
            qubit_mapping: None,
        }
        .hqslang(),
        "PragmaRepeatedMeasurement"
    );
    assert_eq!(
        Operation::Other { hqslang: "Bogoliubov".to_string() }.hqslang(),
        "Bogoliubov"
    );
}

#[test]
fn test_error_descriptions() {
    let e = QasmError::OperationNotSupported {
        backend: "QASM".to_string(),
        operation_kind: "ISwap".to_string(),
    };
    assert_eq!(
        e.describe(),
        "operation not supported by backend QASM: ISwap"
    );
    assert_eq!(
        QasmError::NumericResolutionFailed.describe(),
        "symbolic parameter does not resolve to a number"
    );
}
