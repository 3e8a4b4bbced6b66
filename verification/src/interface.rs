//! The translation engine: per-operation lowering, circuit translation,
//! and the subroutine-definition templates for non-native gates.
//!
//! Every public function's result is pinned down by a specification
//! function over the operation model: [`spec_lower`] fixes the exact text
//! of each lowered operation, [`spec_translate`] the ordered sequence of
//! lines of a circuit, and [`spec_gate_definition`] the subroutine
//! template of each non-native gate kind.

use vstd::prelude::*;
use crate::error::{QasmError, QasmErrorSpec};
use crate::euler::{u3_params, u3_params_of};
use crate::numbers::{dec_str, fmt_usize};
use crate::operations::{spec_hqslang, Circuit, Operation};
use crate::values::FloatValue;

verus! {

// ---------------------------------------------------------------------
// The shapes of the emitted statements.
// ---------------------------------------------------------------------

/// `head register[qubit];`
pub open spec fn sq_line(head: Seq<char>, reg: Seq<char>, qubit: nat) -> Seq<char> {
    head + " "@ + reg + "["@ + dec_str(qubit) + "];"@
}

/// `head register[control],register[target];`
pub open spec fn tq_line(head: Seq<char>, reg: Seq<char>, control: nat, target: nat) -> Seq<
    char,
> {
    head + " "@ + reg + "["@ + dec_str(control) + "],"@ + reg + "["@ + dec_str(target) + "];"@
}

/// `mnemonic(angle)`
pub open spec fn param_head(mnemonic: Seq<char>, angle: Seq<char>) -> Seq<char> {
    mnemonic + "("@ + angle + ")"@
}

/// `creg name[length];`
pub open spec fn creg_line(name: Seq<char>, length: nat) -> Seq<char> {
    "creg "@ + name + "["@ + dec_str(length) + "];"@
}

/// `measure register[qubit] -> readout[index];`
pub open spec fn measure_qubit_line(
    reg: Seq<char>,
    qubit: nat,
    readout: Seq<char>,
    index: nat,
) -> Seq<char> {
    "measure "@ + reg + "["@ + dec_str(qubit) + "] -> "@ + readout + "["@ + dec_str(index) + "];"@
}

/// `measure register -> readout;`
pub open spec fn measure_all_line(reg: Seq<char>, readout: Seq<char>) -> Seq<char> {
    "measure "@ + reg + " -> "@ + readout + ";"@
}

/// One `measure` line per mapping entry from position `i` on, each with a
/// trailing newline, in the mapping's own order.
pub open spec fn measure_map_lines_from(
    entries: Seq<(usize, usize)>,
    i: int,
    reg: Seq<char>,
    readout: Seq<char>,
) -> Seq<char>
    decreases entries.len() - i,
{
    if i < 0 || i >= entries.len() {
        Seq::empty()
    } else {
        measure_qubit_line(reg, entries[i].0 as nat, readout, entries[i].1 as nat) + "\n"@
            + measure_map_lines_from(entries, i + 1, reg, readout)
    }
}

/// `if(condition_register[condition_index]==1) ` — the guard that the
/// conditional block repeats in front of every inlined statement.
pub open spec fn guard_text(cond_reg: Seq<char>, cond_idx: nat) -> Seq<char> {
    "if("@ + cond_reg + "["@ + dec_str(cond_idx) + "]==1) "@
}

// ---------------------------------------------------------------------
// The lowering function, at the specification level.
// ---------------------------------------------------------------------

/// The exact text to which one operation lowers, or the error that
/// lowering it yields.
pub open spec fn spec_lower(op: Operation, reg: Seq<char>) -> Result<Seq<char>, QasmErrorSpec>
    decreases op, 0int,
{
    match op {
        Operation::RotateX { qubit, theta } => spec_param_gate("rx"@, theta, reg, qubit as nat),
        Operation::RotateY { qubit, theta } => spec_param_gate("ry"@, theta, reg, qubit as nat),
        Operation::RotateZ { qubit, theta } => spec_param_gate("rz"@, theta, reg, qubit as nat),
        Operation::PhaseShiftState1 { qubit, theta } => spec_param_gate(
            "p"@,
            theta,
            reg,
            qubit as nat,
        ),
        Operation::Hadamard { qubit } => Ok(sq_line("h"@, reg, qubit as nat)),
        Operation::PauliX { qubit } => Ok(sq_line("x"@, reg, qubit as nat)),
        Operation::PauliY { qubit } => Ok(sq_line("y"@, reg, qubit as nat)),
        Operation::PauliZ { qubit } => Ok(sq_line("z"@, reg, qubit as nat)),
        Operation::SGate { qubit } => Ok(sq_line("s"@, reg, qubit as nat)),
        Operation::TGate { qubit } => Ok(sq_line("t"@, reg, qubit as nat)),
        Operation::SqrtPauliX { qubit } => Ok(sq_line("sx"@, reg, qubit as nat)),
        Operation::InvSqrtPauliX { qubit } => Ok(sq_line("sxdg"@, reg, qubit as nat)),
        Operation::CNOT { control, target } => Ok(
            tq_line("cx"@, reg, control as nat, target as nat),
        ),
        Operation::ControlledPauliY { control, target } => Ok(
            tq_line("cy"@, reg, control as nat, target as nat),
        ),
        Operation::ControlledPauliZ { control, target } => Ok(
            tq_line("cz"@, reg, control as nat, target as nat),
        ),
        Operation::SWAP { control, target } => Ok(
            tq_line("swap"@, reg, control as nat, target as nat),
        ),
        Operation::MolmerSorensenXX { control, target } => Ok(
            tq_line("rxx(pi/2)"@, reg, control as nat, target as nat),
        ),
        Operation::VariableMSXX { control, target, theta } => spec_param_two_qubit_gate(
            "rxx"@,
            theta,
            reg,
            control as nat,
            target as nat,
        ),
        Operation::ControlledPhaseShift { control, target, theta } => spec_param_two_qubit_gate(
            "cp"@,
            theta,
            reg,
            control as nat,
            target as nat,
        ),
        Operation::SingleQubitGate { qubit, alpha_r, alpha_i, beta_r, beta_i } => {
            if alpha_r.is_resolved() && alpha_i.is_resolved() && beta_r.is_resolved()
                && beta_i.is_resolved() {
                Ok(
                    sq_line(
                        param_head(
                            "u3"@,
                            u3_params_of(
                                alpha_r.text(),
                                alpha_i.text(),
                                beta_r.text(),
                                beta_i.text(),
                            ),
                        ),
                        reg,
                        qubit as nat,
                    ),
                )
            } else {
                Err(QasmErrorSpec::NumericResolutionFailed)
            }
        },
        Operation::PragmaActiveReset { qubit } => Ok(sq_line("reset"@, reg, qubit as nat)),
        Operation::PragmaConditional { condition_register, condition_index, circuit } => {
            spec_lower_conditional(circuit@, 0, condition_register@, condition_index as nat, reg)
        },
        Operation::PragmaRepeatedMeasurement { readout, number_measurements: _, qubit_mapping } => {
            match qubit_mapping {
                Option::None => Ok(measure_all_line(reg, readout@)),
                Option::Some(m) => Ok(measure_map_lines_from(m@, 0, reg, readout@)),
            }
        },
        Operation::MeasureQubit { qubit, readout, readout_index } => Ok(
            measure_qubit_line(reg, qubit as nat, readout@, readout_index as nat),
        ),
        Operation::DefinitionFloat { name, length, is_output: _ } => Ok(
            creg_line(name@, length as nat),
        ),
        Operation::DefinitionUsize { name, length, is_output: _ } => Ok(
            creg_line(name@, length as nat),
        ),
        Operation::DefinitionBit { name, length, is_output: _ } => Ok(
            creg_line(name@, length as nat),
        ),
        Operation::DefinitionComplex { name, length, is_output: _ } => Ok(
            creg_line(name@, length as nat),
        ),
        Operation::PragmaSleep { .. } => Ok(Seq::empty()),
        Operation::PragmaGlobalPhase { .. } => Ok(Seq::empty()),
        Operation::PragmaStopParallelBlock { .. } => Ok(Seq::empty()),
        Operation::PragmaStopDecompositionBlock { .. } => Ok(Seq::empty()),
        Operation::PragmaSetNumberOfMeasurements { .. } => Ok(Seq::empty()),
        Operation::PragmaStartDecompositionBlock { .. } => Ok(Seq::empty()),
        Operation::InputSymbolic { .. } => Ok(Seq::empty()),
        _ => Err(
            QasmErrorSpec::OperationNotSupported {
                backend: "QASM"@,
                operation_kind: spec_hqslang(op),
            },
        ),
    }
}

/// A single-qubit gate with one angle parameter: the angle must be
/// resolved, else lowering fails.
pub open spec fn spec_param_gate(
    mnemonic: Seq<char>,
    theta: FloatValue,
    reg: Seq<char>,
    qubit: nat,
) -> Result<Seq<char>, QasmErrorSpec> {
    if theta.is_resolved() {
        Ok(sq_line(param_head(mnemonic, theta.text()), reg, qubit))
    } else {
        Err(QasmErrorSpec::NumericResolutionFailed)
    }
}

/// A two-qubit gate with one angle parameter.
pub open spec fn spec_param_two_qubit_gate(
    mnemonic: Seq<char>,
    theta: FloatValue,
    reg: Seq<char>,
    control: nat,
    target: nat,
) -> Result<Seq<char>, QasmErrorSpec> {
    if theta.is_resolved() {
        Ok(tq_line(param_head(mnemonic, theta.text()), reg, control, target))
    } else {
        Err(QasmErrorSpec::NumericResolutionFailed)
    }
}

/// The text of a conditional block from operation `i` on: every inner
/// operation's text, each prefixed by the guard, joined by newlines.  The
/// first inner operation that fails to lower fails the whole block.
pub open spec fn spec_lower_conditional(
    ops: Seq<Operation>,
    i: int,
    cond_reg: Seq<char>,
    cond_idx: nat,
    reg: Seq<char>,
) -> Result<Seq<char>, QasmErrorSpec>
    decreases ops, ops.len() - i,
{
    if i < 0 || i >= ops.len() {
        Ok(Seq::empty())
    } else {
        match spec_lower(ops[i], reg) {
            Result::Err(e) => Err(e),
            Result::Ok(t) => match spec_lower_conditional(ops, i + 1, cond_reg, cond_idx, reg) {
                Result::Err(e) => Err(e),
                Result::Ok(rest) => Ok(
                    guard_text(cond_reg, cond_idx) + t + (if i + 1 < ops.len() {
                        "\n"@
                    } else {
                        Seq::<char>::empty()
                    }) + rest,
                ),
            },
        }
    }
}

/// The lines of a whole circuit from operation `i` on: one entry per
/// operation, in circuit order, or the first error.
pub open spec fn spec_translate_from(ops: Seq<Operation>, i: int, reg: Seq<char>) -> Result<
    Seq<Seq<char>>,
    QasmErrorSpec,
>
    decreases ops.len() - i,
{
    if i < 0 || i >= ops.len() {
        Ok(Seq::empty())
    } else {
        match spec_lower(ops[i], reg) {
            Result::Err(e) => Err(e),
            Result::Ok(t) => match spec_translate_from(ops, i + 1, reg) {
                Result::Err(e) => Err(e),
                Result::Ok(rest) => Ok(seq![t] + rest),
            },
        }
    }
}

/// The exact sequence of output lines of a circuit, or the first error in
/// circuit order.
pub open spec fn spec_translate(ops: Seq<Operation>, reg: Seq<char>) -> Result<
    Seq<Seq<char>>,
    QasmErrorSpec,
> {
    spec_translate_from(ops, 0, reg)
}

/// The mathematical image of a lowering result.
pub open spec fn lower_result_view(r: Result<String, QasmError>) -> Result<
    Seq<char>,
    QasmErrorSpec,
> {
    match r {
        Result::Ok(s) => Ok(s@),
        Result::Err(e) => Err(e@),
    }
}

/// The mathematical image of a translation result.
pub open spec fn translate_result_view(r: Result<Vec<String>, QasmError>) -> Result<
    Seq<Seq<char>>,
    QasmErrorSpec,
> {
    match r {
        Result::Ok(v) => Ok(v@.map_values(|s: String| s@)),
        Result::Err(e) => Err(e@),
    }
}

// ---------------------------------------------------------------------
// Exec helpers that build the statement shapes.
// ---------------------------------------------------------------------

fn sq_line_text(head: &str, reg: &str, qubit: usize) -> (s: String)
    ensures
        s@ == sq_line(head@, reg@, qubit as nat),
{
    let mut s = head.to_owned();
    s.append(" ");
    s.append(reg);
    s.append("[");
    let d = fmt_usize(qubit);
    s.append(d.as_str());
    s.append("];");
    proof {
        assert(s@ =~= sq_line(head@, reg@, qubit as nat));
    }
    s
}

fn tq_line_text(head: &str, reg: &str, control: usize, target: usize) -> (s: String)
    ensures
        s@ == tq_line(head@, reg@, control as nat, target as nat),
{
    let mut s = head.to_owned();
    s.append(" ");
    s.append(reg);
    s.append("[");
    let c = fmt_usize(control);
    s.append(c.as_str());
    s.append("],");
    s.append(reg);
    s.append("[");
    let t = fmt_usize(target);
    s.append(t.as_str());
    s.append("];");
    proof {
        assert(s@ =~= tq_line(head@, reg@, control as nat, target as nat));
    }
    s
}

fn param_head_text(mnemonic: &str, angle: &str) -> (s: String)
    ensures
        s@ == param_head(mnemonic@, angle@),
{
    let mut s = mnemonic.to_owned();
    s.append("(");
    s.append(angle);
    s.append(")");
    proof {
        assert(s@ =~= param_head(mnemonic@, angle@));
    }
    s
}

fn creg_line_text(name: &str, length: usize) -> (s: String)
    ensures
        s@ == creg_line(name@, length as nat),
{
    let mut s = "creg ".to_owned();
    s.append(name);
    s.append("[");
    let l = fmt_usize(length);
    s.append(l.as_str());
    s.append("];");
    proof {
        assert(s@ =~= creg_line(name@, length as nat));
    }
    s
}

fn measure_qubit_line_text(reg: &str, qubit: usize, readout: &str, index: usize) -> (s: String)
    ensures
        s@ == measure_qubit_line(reg@, qubit as nat, readout@, index as nat),
{
    let mut s = "measure ".to_owned();
    s.append(reg);
    s.append("[");
    let q = fmt_usize(qubit);
    s.append(q.as_str());
    s.append("] -> ");
    s.append(readout);
    s.append("[");
    let i = fmt_usize(index);
    s.append(i.as_str());
    s.append("];");
    proof {
        assert(s@ =~= measure_qubit_line(reg@, qubit as nat, readout@, index as nat));
    }
    s
}

fn guard_text_exec(cond_reg: &str, cond_idx: usize) -> (s: String)
    ensures
        s@ == guard_text(cond_reg@, cond_idx as nat),
{
    let mut s = "if(".to_owned();
    s.append(cond_reg);
    s.append("[");
    let i = fmt_usize(cond_idx);
    s.append(i.as_str());
    s.append("]==1) ");
    proof {
        assert(s@ =~= guard_text(cond_reg@, cond_idx as nat));
    }
    s
}

fn param_sq_gate(mnemonic: &str, theta: &FloatValue, reg: &str, qubit: usize) -> (r: Result<
    String,
    QasmError,
>)
    ensures
        lower_result_view(r) == spec_param_gate(mnemonic@, *theta, reg@, qubit as nat),
{
    match theta {
        FloatValue::Resolved(t) => {
            let head = param_head_text(mnemonic, t.as_str());
            Ok(sq_line_text(head.as_str(), reg, qubit))
        },
        FloatValue::Symbolic(_) => Err(QasmError::NumericResolutionFailed),
    }
}

fn param_tq_gate(mnemonic: &str, theta: &FloatValue, reg: &str, control: usize, target: usize) -> (r:
    Result<String, QasmError>)
    ensures
        lower_result_view(r) == spec_param_two_qubit_gate(
            mnemonic@,
            *theta,
            reg@,
            control as nat,
            target as nat,
        ),
{
    match theta {
        FloatValue::Resolved(t) => {
            let head = param_head_text(mnemonic, t.as_str());
            Ok(tq_line_text(head.as_str(), reg, control, target))
        },
        FloatValue::Symbolic(_) => Err(QasmError::NumericResolutionFailed),
    }
}

fn allowed_noop(op: &Operation) -> (b: bool)
    ensures
        b == crate::operations::is_allowed_noop(*op),
{
    match op {
        Operation::PragmaSleep { .. } => true,
        Operation::PragmaGlobalPhase { .. } => true,
        Operation::PragmaStopParallelBlock { .. } => true,
        Operation::PragmaStopDecompositionBlock { .. } => true,
        Operation::PragmaSetNumberOfMeasurements { .. } => true,
        Operation::PragmaStartDecompositionBlock { .. } => true,
        Operation::InputSymbolic { .. } => true,
        _ => false,
    }
}

// ---------------------------------------------------------------------
// The three entry points.
// ---------------------------------------------------------------------

/// How a prefix of already-emitted text combines with the outcome of the
/// remaining work: an error wins, otherwise the texts concatenate.
pub open spec fn cond_append(prefix: Seq<char>, rest: Result<Seq<char>, QasmErrorSpec>) -> Result<
    Seq<char>,
    QasmErrorSpec,
> {
    match rest {
        Result::Err(e) => Err(e),
        Result::Ok(r) => Ok(prefix + r),
    }
}

/// How a prefix of already-translated lines combines with the outcome of
/// the remaining operations.
pub open spec fn translate_append(
    prefix: Seq<Seq<char>>,
    rest: Result<Seq<Seq<char>>, QasmErrorSpec>,
) -> Result<Seq<Seq<char>>, QasmErrorSpec> {
    match rest {
        Result::Err(e) => Err(e),
        Result::Ok(r) => Ok(prefix + r),
    }
}

/// Translate one operation to its target-dialect text.
///
/// The result is exactly [`spec_lower`] of the operation: the statement
/// text for a supported kind, the empty string for an allowed no-op
/// pragma, `NumericResolutionFailed` where a parameter stayed symbolic,
/// and `OperationNotSupported` naming the kind for every other kind.
pub fn call_operation(operation: &Operation, qubit_register_name: &str) -> (r: Result<
    String,
    QasmError,
>)
    ensures
        lower_result_view(r) == spec_lower(*operation, qubit_register_name@),
    decreases *operation,
{
    match operation {
        Operation::RotateX { qubit, theta } => param_sq_gate(
            "rx",
            theta,
            qubit_register_name,
            *qubit,
        ),
        Operation::RotateY { qubit, theta } => param_sq_gate(
            "ry",
            theta,
            qubit_register_name,
            *qubit,
        ),
        Operation::RotateZ { qubit, theta } => param_sq_gate(
            "rz",
            theta,
            qubit_register_name,
            *qubit,
        ),
        Operation::PhaseShiftState1 { qubit, theta } => param_sq_gate(
            "p",
            theta,
            qubit_register_name,
            *qubit,
        ),
        Operation::Hadamard { qubit } => Ok(sq_line_text("h", qubit_register_name, *qubit)),
        Operation::PauliX { qubit } => Ok(sq_line_text("x", qubit_register_name, *qubit)),
        Operation::PauliY { qubit } => Ok(sq_line_text("y", qubit_register_name, *qubit)),
        Operation::PauliZ { qubit } => Ok(sq_line_text("z", qubit_register_name, *qubit)),
        Operation::SGate { qubit } => Ok(sq_line_text("s", qubit_register_name, *qubit)),
        Operation::TGate { qubit } => Ok(sq_line_text("t", qubit_register_name, *qubit)),
        Operation::SqrtPauliX { qubit } => Ok(sq_line_text("sx", qubit_register_name, *qubit)),
        Operation::InvSqrtPauliX { qubit } => Ok(
            sq_line_text("sxdg", qubit_register_name, *qubit),
        ),
        Operation::CNOT { control, target } => Ok(
            tq_line_text("cx", qubit_register_name, *control, *target),
        ),
        Operation::ControlledPauliY { control, target } => Ok(
            tq_line_text("cy", qubit_register_name, *control, *target),
        ),
        Operation::ControlledPauliZ { control, target } => Ok(
            tq_line_text("cz", qubit_register_name, *control, *target),
        ),
        Operation::SWAP { control, target } => Ok(
            tq_line_text("swap", qubit_register_name, *control, *target),
        ),
        Operation::MolmerSorensenXX { control, target } => Ok(
            tq_line_text("rxx(pi/2)", qubit_register_name, *control, *target),
        ),
        Operation::VariableMSXX { control, target, theta } => param_tq_gate(
            "rxx",
            theta,
            qubit_register_name,
            *control,
            *target,
        ),
        Operation::ControlledPhaseShift { control, target, theta } => param_tq_gate(
            "cp",
            theta,
            qubit_register_name,
            *control,
            *target,
        ),
        Operation::SingleQubitGate { qubit, alpha_r, alpha_i, beta_r, beta_i } => {
            match (alpha_r, alpha_i, beta_r, beta_i) {
                (
                    FloatValue::Resolved(ar),
                    FloatValue::Resolved(ai),
                    FloatValue::Resolved(br),
                    FloatValue::Resolved(bi),
                ) => {
                    let angles = u3_params(ar.as_str(), ai.as_str(), br.as_str(), bi.as_str());
                    let head = param_head_text("u3", angles.as_str());
                    Ok(sq_line_text(head.as_str(), qubit_register_name, *qubit))
                },
                _ => Err(QasmError::NumericResolutionFailed),
            }
        },
        Operation::PragmaActiveReset { qubit } => Ok(
            sq_line_text("reset", qubit_register_name, *qubit),
        ),
        Operation::PragmaConditional { condition_register, condition_index, circuit } => {
            let ghost ops = circuit@;
            let ghost creg = condition_register@;
            let ghost cidx = (*condition_index) as nat;
            let ghost regv = qubit_register_name@;
            let mut out = String::new();
            let n = circuit.len();
            let mut i: usize = 0;
            proof {
                match spec_lower_conditional(ops, 0, creg, cidx, regv) {
                    Result::Ok(r) => {
                        assert(Seq::<char>::empty() + r =~= r);
                    },
                    Result::Err(_) => {},
                }
            }
            while i < n
                invariant
                    n == ops.len(),
                    i <= n,
                    spec_lower_conditional(ops, 0, creg, cidx, regv) == cond_append(
                        out@,
                        spec_lower_conditional(ops, i as int, creg, cidx, regv),
                    ),
                    ops == circuit@,
                    creg == condition_register@,
                    cidx == (*condition_index) as nat,
                    regv == qubit_register_name@,
                    *operation == (Operation::PragmaConditional {
                        condition_register: *condition_register,
                        condition_index: *condition_index,
                        circuit: *circuit,
                    }),
                decreases n - i,
            {
                proof {
                    assert(*operation == Operation::PragmaConditional {
                        condition_register: *condition_register,
                        condition_index: *condition_index,
                        circuit: *circuit,
                    });
                    assert(decreases_to!(*operation => *circuit));
                    assert(decreases_to!(*circuit => circuit@));
                    assert(decreases_to!(circuit@ => circuit@[i as int]));
                }
                let inner = &circuit[i];
                let res = call_operation(inner, qubit_register_name);
                match res {
                    Result::Err(e) => {
                        proof {
                            assert(spec_lower(ops[i as int], regv) == Err::<
                                Seq<char>,
                                QasmErrorSpec,
                            >(e@));
                            assert(spec_lower_conditional(ops, i as int, creg, cidx, regv)
                                == Err::<Seq<char>, QasmErrorSpec>(e@));
                            assert(spec_lower(*operation, regv) == Err::<
                                Seq<char>,
                                QasmErrorSpec,
                            >(e@));
                        }
                        return Err(e);
                    },
                    Result::Ok(t) => {
                        let ghost old_out = out@;
                        let g = guard_text_exec(condition_register.as_str(), *condition_index);
                        out.append(g.as_str());
                        out.append(t.as_str());
                        if i + 1 < n {
                            out.append("\n");
                        }
                        proof {
                            let sep: Seq<char> = if i + 1 < ops.len() {
                                "\n"@
                            } else {
                                Seq::<char>::empty()
                            };
                            assert(out@ =~= old_out + (guard_text(creg, cidx) + t@ + sep));
                            match spec_lower_conditional(ops, i + 1, creg, cidx, regv) {
                                Result::Ok(rest) => {
                                    assert(old_out + (guard_text(creg, cidx) + t@ + sep + rest)
                                        =~= out@ + rest);
                                },
                                Result::Err(_) => {},
                            }
                        }
                        i += 1;
                    },
                }
            }
            proof {
                assert(out@ + Seq::<char>::empty() =~= out@);
            }
            Ok(out)
        },
        Operation::PragmaRepeatedMeasurement { readout, number_measurements: _, qubit_mapping } => {
            match qubit_mapping {
                Option::None => {
                    let mut s = "measure ".to_owned();
                    s.append(qubit_register_name);
                    s.append(" -> ");
                    s.append(readout.as_str());
                    s.append(";");
                    proof {
                        assert(s@ =~= measure_all_line(qubit_register_name@, readout@));
                    }
                    Ok(s)
                },
                Option::Some(m) => {
                    let ghost entries = m@;
                    let ghost rov = readout@;
                    let ghost regv = qubit_register_name@;
                    let mut s = String::new();
                    let k = m.len();
                    let mut i: usize = 0;
                    proof {
                        assert(Seq::<char>::empty() + measure_map_lines_from(entries, 0, regv, rov)
                            =~= measure_map_lines_from(entries, 0, regv, rov));
                    }
                    while i < k
                        invariant
                            k == entries.len(),
                            i <= k,
                            measure_map_lines_from(entries, 0, regv, rov) == s@
                                + measure_map_lines_from(entries, i as int, regv, rov),
                            entries == m@,
                            rov == readout@,
                            regv == qubit_register_name@,
                        decreases k - i,
                    {
                        let ghost old_s = s@;
                        let (q, b) = m[i];
                        let line = measure_qubit_line_text(
                            qubit_register_name,
                            q,
                            readout.as_str(),
                            b,
                        );
                        s.append(line.as_str());
                        s.append("\n");
                        proof {
                            assert(measure_map_lines_from(entries, 0, regv, rov) =~= old_s + (
                            measure_qubit_line(regv, entries[i as int].0 as nat, rov, entries[
                                i as int
                            ].1 as nat) + "\n"@) + measure_map_lines_from(
                                entries,
                                i + 1,
                                regv,
                                rov,
                            ));
                            assert(s@ + measure_map_lines_from(entries, i + 1, regv, rov) =~= old_s
                                + (measure_qubit_line(
                                regv,
                                entries[i as int].0 as nat,
                                rov,
                                entries[i as int].1 as nat,
                            ) + "\n"@) + measure_map_lines_from(entries, i + 1, regv, rov));
                        }
                        i += 1;
                    }
                    proof {
                        assert(s@ + Seq::<char>::empty() =~= s@);
                    }
                    Ok(s)
                },
            }
        },
        Operation::MeasureQubit { qubit, readout, readout_index } => Ok(
            measure_qubit_line_text(
                qubit_register_name,
                *qubit,
                readout.as_str(),
                *readout_index,
            ),
        ),
        Operation::DefinitionFloat { name, length, is_output: _ } => Ok(
            creg_line_text(name.as_str(), *length),
        ),
        Operation::DefinitionUsize { name, length, is_output: _ } => Ok(
            creg_line_text(name.as_str(), *length),
        ),
        Operation::DefinitionBit { name, length, is_output: _ } => Ok(
            creg_line_text(name.as_str(), *length),
        ),
        Operation::DefinitionComplex { name, length, is_output: _ } => Ok(
            creg_line_text(name.as_str(), *length),
        ),
        _ => {
            if allowed_noop(operation) {
                Ok(String::new())
            } else {
                Err(
                    QasmError::OperationNotSupported {
                        backend: "QASM".to_owned(),
                        operation_kind: operation.hqslang(),
                    },
                )
            }
        },
    }
}

/// Translate a whole circuit: one entry per operation, in circuit order,
/// aborting with the first operation's error (fail-fast, no partial
/// result).
///
/// The result is exactly [`spec_translate`] of the circuit's operations.
pub fn call_circuit(circuit: &Circuit, qubit_register_name: &str) -> (r: Result<
    Vec<String>,
    QasmError,
>)
    ensures
        translate_result_view(r) == spec_translate(circuit.operations@, qubit_register_name@),
{
    let ghost ops = circuit.operations@;
    let ghost regv = qubit_register_name@;
    let mut out: Vec<String> = Vec::new();
    let n = circuit.operations.len();
    let mut i: usize = 0;
    proof {
        assert(out@.map_values(|s: String| s@) =~= Seq::<Seq<char>>::empty());
        match spec_translate_from(ops, 0, regv) {
            Result::Ok(r) => {
                assert(Seq::<Seq<char>>::empty() + r =~= r);
            },
            Result::Err(_) => {},
        }
    }
    while i < n
        invariant
            n == ops.len(),
            i <= n,
            spec_translate_from(ops, 0, regv) == translate_append(
                out@.map_values(|s: String| s@),
                spec_translate_from(ops, i as int, regv),
            ),
            ops == circuit.operations@,
            regv == qubit_register_name@,
        decreases n - i,
    {
        let op = &circuit.operations[i];
        let res = call_operation(op, qubit_register_name);
        match res {
            Result::Err(e) => {
                return Err(e);
            },
            Result::Ok(t) => {
                let ghost old_lines = out@.map_values(|s: String| s@);
                let ghost tv = t@;
                out.push(t);
                proof {
                    assert(out@.map_values(|s: String| s@) =~= old_lines + seq![tv]);
                    match spec_translate_from(ops, i + 1, regv) {
                        Result::Ok(rest) => {
                            assert(old_lines + (seq![tv] + rest) =~= (old_lines + seq![tv])
                                + rest);
                        },
                        Result::Err(_) => {},
                    }
                }
                i += 1;
            },
        }
    }
    proof {
        assert(out@.map_values(|s: String| s@) + Seq::<Seq<char>>::empty() =~= out@.map_values(
            |s: String| s@,
        ));
    }
    Ok(out)
}

// ---------------------------------------------------------------------
// Subroutine definitions for non-native gates.
// ---------------------------------------------------------------------

/// The subroutine definition emitted for an operation kind with no native
/// target-dialect opcode, or the error for a kind with no template.  Each
/// template is a constant: only the kind selects it, never the instance's
/// parameter values.
pub open spec fn spec_gate_definition(op: Operation) -> Result<Seq<char>, QasmErrorSpec> {
    match op {
        Operation::RotateX { .. } => Ok("gate rx(theta) a { u3(theta, -pi/2,pi/2) a; }\n"@),
        Operation::RotateY { .. } => Ok("gate ry(theta) a { u3(theta,0,0) a; }\n"@),
        Operation::RotateZ { .. } => Ok("gate rz(phi) a { u1(phi) a; }\n"@),
        Operation::Hadamard { .. } => Ok("gate h a { u2(0,pi) a; }\n"@),
        Operation::CNOT { .. } => Ok("gate cx c,t { CX c,t; }\n"@),
        Operation::ISwap { .. } => Ok(
            "gate iswap a,b { rx(pi/2) a; CX a,b; rx(-pi/2) a; ry(-pi/2) b; CX a,b; rx(-pi/2) a; }\n"@,
        ),
        Operation::SqrtISwap { .. } => Ok(
            "gate siswap a,b { rx(pi/2) a; CX a,b; rx(-pi/4) a; ry(-pi/4) b; CX a,b; rx(-pi/2) a; }\n"@,
        ),
        Operation::InvSqrtISwap { .. } => Ok(
            "gate siswapdg a,b { rx(pi/2) a; CX a,b; rx(pi/4) a; ry(pi/4) b; CX a,b; rx(-pi/2) a; }\n"@,
        ),
        Operation::FSwap { .. } => Ok(
            "gate fswap a,b { rz(-pi/2) a; rz(-pi/2) b; rx(pi/2) a; CX a,b; rx(-pi/2) a; ry(-pi/2) b; CX a,b; rx(-pi/2) a; }\n"@,
        ),
        Operation::Fsim { .. } => Ok(
            "gate fsim(t,u,phi) a,b { rz(-pi/2) a; rz(pi) b; ry(pi/2) b; h b; CX a,b; h b; ry(-t+phi+pi/2) a; rx(pi) a; ry(-pi/2) b; rz((u-pi)/2) b; h b; CX a,b; h b; rz(pi) a; ry(t+phi+pi/2) a; rz(pi) b; ry(pi/2) b; h b; CX a,b; h b; rz(-pi/2) b; rx(-pi/2) b; rz((-u-pi)/2) a; rz((-u-pi)/2) b; }\n"@,
        ),
        Operation::PMInteraction { .. } => Ok(
            "gate pmint(theta) a,b { rx(pi/2) a; CX a,b; rx(theta) a; ry(theta) b; CX a,b; rx(-pi/2) a; }\n"@,
        ),
        Operation::GivensRotation { .. } => Ok(
            "gate gvnsrot(theta,phi) a,b { rz(phi+pi/2) b; rx(pi/2) a; CX a,b; rx(-theta) a; ry(-theta) b; CX a,b; rx(-pi/2) a; rz(-pi/2) b; }\n"@,
        ),
        Operation::GivensRotationLittleEndian { .. } => Ok(
            "gate gvnsrotle(theta,phi) a,b { rz(-pi/2) a; rx(pi/2) a; CX a,b; rx(-theta) a; ry(-theta) b; CX a,b; rx(-pi/2) a; rz(phi+pi/2) a; }\n"@,
        ),
        Operation::Qsim { .. } => Ok(
            "gate qsim(xc,yc,zc) a,b { rz(-pi/2) a; rz(pi) b; ry(pi/2) b; h b; CX a,b; h b; ry(-2*xc+pi/2) a; rx(pi) a; ry(-pi/2) b; rz(2*zc-pi) b; h b; CX a,b; h b; rz(pi) a; ry(2*yc+pi/2) a; rz(pi) b; ry(pi/2) b; h b; CX a,b; h b; rz(-pi/2) b; rx(-pi/2) b; }\n"@,
        ),
        Operation::XY { .. } => Ok(
            "gate xy(theta) a,b { rx(pi/2) a; CX a,b; rx(-theta/2) a; ry(-theta/2) b; CX a,b; rx(-pi/2) a; }\n"@,
        ),
        Operation::SpinInteraction { .. } => Ok(
            "gate spinint(xc,yc,zc) a,b { rz(-pi/2) a; rz(pi) b; ry(pi/2) b; h b; CX a,b; h b; ry(-2*xc) a; rx(pi) a; ry(-pi/2) b; rz(2*zc-pi/2) b; h b; CX a,b; h b; rz(pi) a; ry(2*yc+pi) a; rz(pi) b; ry(pi/2) b; h b; CX a,b; h b; rz(-pi/2) b; rx(-pi/2) b; }\n"@,
        ),
        Operation::PhaseShiftedControlledZ { .. } => Ok(
            "gate pscz(phi) a,b { rz(pi/2) a; rz(pi/2) b; ry(pi/2) b; CX a,b; rx(-pi/2) b; rz(-pi/2) a; ry(-pi/2) b; rz(phi) a; rz(phi) b; }\n"@,
        ),
        Operation::PhaseShiftedControlledPhase { .. } => Ok(
            "gate pscp(theta,phi) a,b { rz(theta/2) a; rz(theta/2) b; CX a,b; rz(-theta/2) b; CX a,b; rz(phi) a; rz(phi) b; }\n"@,
        ),
        Operation::PragmaGlobalPhase { .. } => Ok(
            "gate gphase(theta) q { x q; u1(theta) q; x q; u1(theta) q; }\n"@,
        ),
        Operation::RotateXY { .. } => Ok(
            "gate rxy(theta,phi) q { u3(theta,phi-pi/2,pi/2-phi) q; }\n"@,
        ),
        _ => Err(QasmErrorSpec::GateDefinitionMissing { operation_kind: spec_hqslang(op) }),
    }
}

/// Emit the subroutine definition for an operation's kind.
///
/// The result is exactly [`spec_gate_definition`] of the operation: a
/// fixed template selected by the kind alone, or `GateDefinitionMissing`
/// naming the kind.  Deduplication across a circuit is the caller's
/// responsibility.
pub fn gate_definition(operation: &Operation) -> (r: Result<String, QasmError>)
    ensures
        lower_result_view(r) == spec_gate_definition(*operation),
{
    match operation {
        Operation::RotateX { .. } => Ok(
            "gate rx(theta) a { u3(theta, -pi/2,pi/2) a; }\n".to_owned(),
        ),
        Operation::RotateY { .. } => Ok("gate ry(theta) a { u3(theta,0,0) a; }\n".to_owned()),
        Operation::RotateZ { .. } => Ok("gate rz(phi) a { u1(phi) a; }\n".to_owned()),
        Operation::Hadamard { .. } => Ok("gate h a { u2(0,pi) a; }\n".to_owned()),
        Operation::CNOT { .. } => Ok("gate cx c,t { CX c,t; }\n".to_owned()),
        Operation::ISwap { .. } => Ok(
            "gate iswap a,b { rx(pi/2) a; CX a,b; rx(-pi/2) a; ry(-pi/2) b; CX a,b; rx(-pi/2) a; }\n".to_owned(),
        ),
        Operation::SqrtISwap { .. } => Ok(
            "gate siswap a,b { rx(pi/2) a; CX a,b; rx(-pi/4) a; ry(-pi/4) b; CX a,b; rx(-pi/2) a; }\n".to_owned(),
        ),
        Operation::InvSqrtISwap { .. } => Ok(
            "gate siswapdg a,b { rx(pi/2) a; CX a,b; rx(pi/4) a; ry(pi/4) b; CX a,b; rx(-pi/2) a; }\n".to_owned(),
        ),
        Operation::FSwap { .. } => Ok(
            "gate fswap a,b { rz(-pi/2) a; rz(-pi/2) b; rx(pi/2) a; CX a,b; rx(-pi/2) a; ry(-pi/2) b; CX a,b; rx(-pi/2) a; }\n".to_owned(),
        ),
        Operation::Fsim { .. } => Ok(
            "gate fsim(t,u,phi) a,b { rz(-pi/2) a; rz(pi) b; ry(pi/2) b; h b; CX a,b; h b; ry(-t+phi+pi/2) a; rx(pi) a; ry(-pi/2) b; rz((u-pi)/2) b; h b; CX a,b; h b; rz(pi) a; ry(t+phi+pi/2) a; rz(pi) b; ry(pi/2) b; h b; CX a,b; h b; rz(-pi/2) b; rx(-pi/2) b; rz((-u-pi)/2) a; rz((-u-pi)/2) b; }\n".to_owned(),
        ),
        Operation::PMInteraction { .. } => Ok(
            "gate pmint(theta) a,b { rx(pi/2) a; CX a,b; rx(theta) a; ry(theta) b; CX a,b; rx(-pi/2) a; }\n".to_owned(),
        ),
        Operation::GivensRotation { .. } => Ok(
            "gate gvnsrot(theta,phi) a,b { rz(phi+pi/2) b; rx(pi/2) a; CX a,b; rx(-theta) a; ry(-theta) b; CX a,b; rx(-pi/2) a; rz(-pi/2) b; }\n".to_owned(),
        ),
        Operation::GivensRotationLittleEndian { .. } => Ok(
            "gate gvnsrotle(theta,phi) a,b { rz(-pi/2) a; rx(pi/2) a; CX a,b; rx(-theta) a; ry(-theta) b; CX a,b; rx(-pi/2) a; rz(phi+pi/2) a; }\n".to_owned(),
        ),
        Operation::Qsim { .. } => Ok(
            "gate qsim(xc,yc,zc) a,b { rz(-pi/2) a; rz(pi) b; ry(pi/2) b; h b; CX a,b; h b; ry(-2*xc+pi/2) a; rx(pi) a; ry(-pi/2) b; rz(2*zc-pi) b; h b; CX a,b; h b; rz(pi) a; ry(2*yc+pi/2) a; rz(pi) b; ry(pi/2) b; h b; CX a,b; h b; rz(-pi/2) b; rx(-pi/2) b; }\n".to_owned(),
        ),
        Operation::XY { .. } => Ok(
            "gate xy(theta) a,b { rx(pi/2) a; CX a,b; rx(-theta/2) a; ry(-theta/2) b; CX a,b; rx(-pi/2) a; }\n".to_owned(),
        ),
        Operation::SpinInteraction { .. } => Ok(
            "gate spinint(xc,yc,zc) a,b { rz(-pi/2) a; rz(pi) b; ry(pi/2) b; h b; CX a,b; h b; ry(-2*xc) a; rx(pi) a; ry(-pi/2) b; rz(2*zc-pi/2) b; h b; CX a,b; h b; rz(pi) a; ry(2*yc+pi) a; rz(pi) b; ry(pi/2) b; h b; CX a,b; h b; rz(-pi/2) b; rx(-pi/2) b; }\n".to_owned(),
        ),
        Operation::PhaseShiftedControlledZ { .. } => Ok(
            "gate pscz(phi) a,b { rz(pi/2) a; rz(pi/2) b; ry(pi/2) b; CX a,b; rx(-pi/2) b; rz(-pi/2) a; ry(-pi/2) b; rz(phi) a; rz(phi) b; }\n".to_owned(),
        ),
        Operation::PhaseShiftedControlledPhase { .. } => Ok(
            "gate pscp(theta,phi) a,b { rz(theta/2) a; rz(theta/2) b; CX a,b; rz(-theta/2) b; CX a,b; rz(phi) a; rz(phi) b; }\n".to_owned(),
        ),
        Operation::PragmaGlobalPhase { .. } => Ok(
            "gate gphase(theta) q { x q; u1(theta) q; x q; u1(theta) q; }\n".to_owned(),
        ),
        Operation::RotateXY { .. } => Ok(
            "gate rxy(theta,phi) q { u3(theta,phi-pi/2,pi/2-phi) q; }\n".to_owned(),
        ),
        _ => Err(QasmError::GateDefinitionMissing { operation_kind: operation.hqslang() }),
    }
}

} // verus!
