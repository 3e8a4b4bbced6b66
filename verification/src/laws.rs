//! Laws of the translation engine, stated and proved once and for all
//! inputs: determinism, order preservation, fail-fast error selection,
//! the empty lowering of allowed no-op pragmas, the exact rejection of
//! unsupported kinds, and the line counts of the two multi-line lowerings
//! (repeated measurement and conditional block).

use vstd::prelude::*;
use crate::error::QasmErrorSpec;
use crate::interface::{
    guard_text, measure_all_line, measure_map_lines_from, measure_qubit_line, spec_lower,
    spec_lower_conditional, spec_translate, spec_translate_from, translate_result_view,
};
use crate::numbers::{dec_str, is_digit_char, lemma_dec_str_digits};
use crate::operations::{is_allowed_noop, is_supported_kind, spec_hqslang, Operation};

verus! {

// ---------------------------------------------------------------------
// Counting physical lines: the newline characters of a text.
// ---------------------------------------------------------------------

/// The number of newline characters in a text.
pub open spec fn newline_count(s: Seq<char>) -> nat
    decreases s.len(),
{
    if s.len() == 0 {
        0
    } else {
        (if s[0] == '\n' {
            1nat
        } else {
            0nat
        }) + newline_count(s.drop_first())
    }
}

/// A text without newline characters.
pub open spec fn newline_free(s: Seq<char>) -> bool {
    forall|i: int| 0 <= i < s.len() ==> s[i] != '\n'
}

pub proof fn lemma_newline_count_concat(a: Seq<char>, b: Seq<char>)
    ensures
        newline_count(a + b) == newline_count(a) + newline_count(b),
    decreases a.len(),
{
    if a.len() == 0 {
        assert(a + b =~= b);
    } else {
        assert((a + b).drop_first() =~= a.drop_first() + b);
        assert((a + b)[0] == a[0]);
        lemma_newline_count_concat(a.drop_first(), b);
    }
}

pub proof fn lemma_newline_free_count(s: Seq<char>)
    requires
        newline_free(s),
    ensures
        newline_count(s) == 0,
    decreases s.len(),
{
    if s.len() == 0 {
    } else {
        assert forall|i: int| 0 <= i < s.drop_first().len() implies s.drop_first()[i] != '\n' by {
            assert(s.drop_first()[i] == s[i + 1]);
        }
        lemma_newline_free_count(s.drop_first());
    }
}

/// Decimal index texts hold digits only, never a newline.
pub proof fn lemma_dec_str_newline_free(n: nat)
    ensures
        newline_free(dec_str(n)),
{
    lemma_dec_str_digits(n);
    assert forall|i: int| 0 <= i < dec_str(n).len() implies dec_str(n)[i] != '\n' by {
        assert(is_digit_char(dec_str(n)[i]));
    }
}

// ---------------------------------------------------------------------
// Determinism.
// ---------------------------------------------------------------------

/// Law: translation is a pure mapping.  Two results that both meet the
/// translation contract for the same operations and register name are the
/// same, line for line and error for error — no hidden state.
pub proof fn lemma_translation_deterministic(
    ops: Seq<Operation>,
    reg: Seq<char>,
    r1: Result<Vec<String>, crate::error::QasmError>,
    r2: Result<Vec<String>, crate::error::QasmError>,
)
    requires
        translate_result_view(r1) == spec_translate(ops, reg),
        translate_result_view(r2) == spec_translate(ops, reg),
    ensures
        translate_result_view(r1) == translate_result_view(r2),
{
}

// ---------------------------------------------------------------------
// Order preservation and fail-fast error selection.
// ---------------------------------------------------------------------

/// Law: a successful translation has exactly one entry per operation, in
/// circuit order: entry `j` is the lowering of operation `j`.  Nothing is
/// reordered, dropped or deduplicated, and an operation that lowers to the
/// empty string still occupies its slot.
pub proof fn lemma_translate_preserves_order(ops: Seq<Operation>, i: int, reg: Seq<char>)
    requires
        0 <= i <= ops.len(),
        spec_translate_from(ops, i, reg) is Ok,
    ensures
        spec_translate_from(ops, i, reg)->Ok_0.len() == ops.len() - i,
        forall|j: int|
            i <= j < ops.len() ==> (#[trigger] spec_lower(ops[j], reg)) is Ok
                && spec_translate_from(ops, i, reg)->Ok_0[j - i] == spec_lower(ops[j], reg)->Ok_0,
    decreases ops.len() - i,
{
    if i >= ops.len() {
    } else {
        lemma_translate_preserves_order(ops, i + 1, reg);
    }
}

/// Law: translation fails fast.  If every operation before position `j`
/// lowers successfully and operation `j` does not, the circuit's
/// translation is exactly operation `j`'s error — no partial result and no
/// error of a later operation.
pub proof fn lemma_translate_fails_fast(ops: Seq<Operation>, i: int, j: int, reg: Seq<char>)
    requires
        0 <= i <= j < ops.len(),
        spec_lower(ops[j], reg) is Err,
        forall|k: int| i <= k < j ==> (#[trigger] spec_lower(ops[k], reg)) is Ok,
    ensures
        spec_translate_from(ops, i, reg) == Err::<Seq<Seq<char>>, QasmErrorSpec>(
            spec_lower(ops[j], reg)->Err_0,
        ),
    decreases j - i,
{
    if i == j {
    } else {
        lemma_translate_fails_fast(ops, i + 1, j, reg);
    }
}

// ---------------------------------------------------------------------
// Allowed no-ops and unsupported kinds.
// ---------------------------------------------------------------------

/// Law: every allowed no-op pragma kind lowers to the empty string and
/// `Ok`, never to an error, whatever the register name.
pub proof fn lemma_noop_lowers_to_empty(op: Operation, reg: Seq<char>)
    requires
        is_allowed_noop(op),
    ensures
        spec_lower(op, reg) == Ok::<Seq<char>, QasmErrorSpec>(Seq::<char>::empty()),
{
}

/// Law: every operation kind that is neither supported nor an allowed
/// no-op lowers to `OperationNotSupported`, with the operation's declared
/// kind name and the backend name, whatever the register name.
pub proof fn lemma_unsupported_is_rejected(op: Operation, reg: Seq<char>)
    requires
        !is_supported_kind(op),
        !is_allowed_noop(op),
    ensures
        spec_lower(op, reg) == Err::<Seq<char>, QasmErrorSpec>(
            QasmErrorSpec::OperationNotSupported {
                backend: "QASM"@,
                operation_kind: spec_hqslang(op),
            },
        ),
{
}

// ---------------------------------------------------------------------
// Repeated measurement: None against an explicit mapping.
// ---------------------------------------------------------------------

/// One `measure` line per mapping entry: the text from entry `i` on holds
/// exactly one newline per remaining entry.
pub proof fn lemma_measure_map_lines_count(
    entries: Seq<(usize, usize)>,
    i: int,
    reg: Seq<char>,
    readout: Seq<char>,
)
    requires
        0 <= i <= entries.len(),
        newline_free(reg),
        newline_free(readout),
    ensures
        newline_count(measure_map_lines_from(entries, i, reg, readout)) == entries.len() - i,
    decreases entries.len() - i,
{
    if i >= entries.len() {
    } else {
        let line = measure_qubit_line(reg, entries[i].0 as nat, readout, entries[i].1 as nat);
        lemma_measure_qubit_line_newline_free(reg, entries[i].0 as nat, readout, entries[i].1 as nat);
        lemma_newline_free_count(line);
        lemma_measure_map_lines_count(entries, i + 1, reg, readout);
        lemma_newline_count_concat(line, "\n"@);
        lemma_newline_count_concat(
            line + "\n"@,
            measure_map_lines_from(entries, i + 1, reg, readout),
        );
        proof_newline_literal();
    }
}

/// A single `measure` statement holds no newline when the register and
/// readout names hold none.
pub proof fn lemma_measure_qubit_line_newline_free(
    reg: Seq<char>,
    qubit: nat,
    readout: Seq<char>,
    index: nat,
)
    requires
        newline_free(reg),
        newline_free(readout),
    ensures
        newline_free(measure_qubit_line(reg, qubit, readout, index)),
{
    reveal_strlit("measure ");
    reveal_strlit("[");
    reveal_strlit("] -> ");
    reveal_strlit("];");
    lemma_dec_str_newline_free(qubit);
    lemma_dec_str_newline_free(index);
    lemma_newline_free_concat("measure "@, reg);
    lemma_newline_free_concat("measure "@ + reg, "["@);
    lemma_newline_free_concat("measure "@ + reg + "["@, dec_str(qubit));
    lemma_newline_free_concat("measure "@ + reg + "["@ + dec_str(qubit), "] -> "@);
    lemma_newline_free_concat("measure "@ + reg + "["@ + dec_str(qubit) + "] -> "@, readout);
    lemma_newline_free_concat(
        "measure "@ + reg + "["@ + dec_str(qubit) + "] -> "@ + readout,
        "["@,
    );
    lemma_newline_free_concat(
        "measure "@ + reg + "["@ + dec_str(qubit) + "] -> "@ + readout + "["@,
        dec_str(index),
    );
    lemma_newline_free_concat(
        "measure "@ + reg + "["@ + dec_str(qubit) + "] -> "@ + readout + "["@ + dec_str(index),
        "];"@,
    );
}

proof fn lemma_newline_free_concat(a: Seq<char>, b: Seq<char>)
    requires
        newline_free(a),
        newline_free(b),
    ensures
        newline_free(a + b),
{
    assert forall|i: int| 0 <= i < (a + b).len() implies (a + b)[i] != '\n' by {
        if i < a.len() {
            assert((a + b)[i] == a[i]);
        } else {
            assert((a + b)[i] == b[i - a.len()]);
        }
    }
}

proof fn proof_newline_literal()
    ensures
        newline_count("\n"@) == 1,
{
    reveal_strlit("\n");
    assert("\n"@.len() == 1);
    assert("\n"@[0] == '\n');
    assert("\n"@.drop_first() =~= Seq::<char>::empty());
    assert(newline_count(Seq::<char>::empty()) == 0);
    assert(newline_count("\n"@) == 1 + newline_count("\n"@.drop_first()));
}

/// Law: lowering a repeated measurement distinguishes a missing mapping
/// from an explicit one.  With no mapping it yields exactly one
/// measure-all line (no newline); with an explicit mapping of K entries it
/// yields exactly K lines, one per entry, in the mapping's own order, each
/// ending in a newline.
pub proof fn lemma_repeated_measurement_shape(
    readout: String,
    number_measurements: usize,
    qubit_mapping: Option<Vec<(usize, usize)>>,
    reg: Seq<char>,
)
    requires
        newline_free(reg),
        newline_free(readout@),
    ensures
        ({
            let r = spec_lower(
                Operation::PragmaRepeatedMeasurement { readout, number_measurements, qubit_mapping },
                reg,
            );
            match qubit_mapping {
                Option::None => r == Ok::<Seq<char>, QasmErrorSpec>(measure_all_line(reg, readout@))
                    && newline_count(measure_all_line(reg, readout@)) == 0,
                Option::Some(m) => r == Ok::<Seq<char>, QasmErrorSpec>(
                    measure_map_lines_from(m@, 0, reg, readout@),
                ) && newline_count(measure_map_lines_from(m@, 0, reg, readout@)) == m@.len(),
            }
        }),
{
    match qubit_mapping {
        Option::None => {
            reveal_strlit("measure ");
            reveal_strlit(" -> ");
            reveal_strlit(";");
            lemma_newline_free_concat("measure "@, reg);
            lemma_newline_free_concat("measure "@ + reg, " -> "@);
            lemma_newline_free_concat("measure "@ + reg + " -> "@, readout@);
            lemma_newline_free_concat("measure "@ + reg + " -> "@ + readout@, ";"@);
            lemma_newline_free_count(measure_all_line(reg, readout@));
        },
        Option::Some(m) => {
            lemma_measure_map_lines_count(m@, 0, reg, readout@);
        },
    }
}

// ---------------------------------------------------------------------
// Conditional blocks: one guarded line per inner operation.
// ---------------------------------------------------------------------

/// The guard holds no newline when the condition register's name holds
/// none.
pub proof fn lemma_guard_newline_free(cond_reg: Seq<char>, cond_idx: nat)
    requires
        newline_free(cond_reg),
    ensures
        newline_free(guard_text(cond_reg, cond_idx)),
{
    reveal_strlit("if(");
    reveal_strlit("[");
    reveal_strlit("]==1) ");
    lemma_dec_str_newline_free(cond_idx);
    lemma_newline_free_concat("if("@, cond_reg);
    lemma_newline_free_concat("if("@ + cond_reg, "["@);
    lemma_newline_free_concat("if("@ + cond_reg + "["@, dec_str(cond_idx));
    lemma_newline_free_concat("if("@ + cond_reg + "["@ + dec_str(cond_idx), "]==1) "@);
}

/// Law: a conditional block whose N inner operations each lower to a
/// newline-free text lowers to `Ok`, and its text holds exactly N guarded
/// statements: N-1 newlines for N > 0, and the empty text for N == 0.
pub proof fn lemma_conditional_guarded_lines(
    ops: Seq<Operation>,
    i: int,
    cond_reg: Seq<char>,
    cond_idx: nat,
    reg: Seq<char>,
)
    requires
        0 <= i <= ops.len(),
        newline_free(cond_reg),
        forall|j: int|
            0 <= j < ops.len() ==> (#[trigger] spec_lower(ops[j], reg)) is Ok && newline_free(
                spec_lower(ops[j], reg)->Ok_0,
            ),
    ensures
        spec_lower_conditional(ops, i, cond_reg, cond_idx, reg) is Ok,
        newline_count(spec_lower_conditional(ops, i, cond_reg, cond_idx, reg)->Ok_0) == if i
            < ops.len() {
            ops.len() - i - 1
        } else {
            0
        },
    decreases ops.len() - i,
{
    if i >= ops.len() {
    } else {
        lemma_conditional_guarded_lines(ops, i + 1, cond_reg, cond_idx, reg);
        let g = guard_text(cond_reg, cond_idx);
        let t = spec_lower(ops[i], reg)->Ok_0;
        let sep: Seq<char> = if i + 1 < ops.len() {
            "\n"@
        } else {
            Seq::<char>::empty()
        };
        let rest = spec_lower_conditional(ops, i + 1, cond_reg, cond_idx, reg)->Ok_0;
        lemma_guard_newline_free(cond_reg, cond_idx);
        lemma_newline_free_count(g);
        lemma_newline_free_count(t);
        lemma_newline_count_concat(g, t);
        lemma_newline_count_concat(g + t, sep);
        lemma_newline_count_concat(g + t + sep, rest);
        if i + 1 < ops.len() {
            proof_newline_literal();
        } else {
            lemma_newline_free_count(sep);
        }
    }
}

/// Law: a conditional block fails fast, like the circuit translator.  If
/// every inner operation before position `j` lowers successfully and
/// operation `j` does not, the block's lowering is exactly operation `j`'s
/// error.
pub proof fn lemma_conditional_fails_fast(
    ops: Seq<Operation>,
    i: int,
    j: int,
    cond_reg: Seq<char>,
    cond_idx: nat,
    reg: Seq<char>,
)
    requires
        0 <= i <= j < ops.len(),
        spec_lower(ops[j], reg) is Err,
        forall|k: int| i <= k < j ==> (#[trigger] spec_lower(ops[k], reg)) is Ok,
    ensures
        spec_lower_conditional(ops, i, cond_reg, cond_idx, reg) == Err::<Seq<char>, QasmErrorSpec>(
            spec_lower(ops[j], reg)->Err_0,
        ),
    decreases j - i,
{
    if i == j {
        assert(spec_lower(ops[i], reg) is Err);
        assert(spec_lower_conditional(ops, i, cond_reg, cond_idx, reg) == Err::<
            Seq<char>,
            QasmErrorSpec,
        >(spec_lower(ops[i], reg)->Err_0));
    } else {
        assert(spec_lower(ops[i], reg) is Ok);
        lemma_conditional_fails_fast(ops, i + 1, j, cond_reg, cond_idx, reg);
        assert(spec_lower_conditional(ops, i + 1, cond_reg, cond_idx, reg) == Err::<
            Seq<char>,
            QasmErrorSpec,
        >(spec_lower(ops[j], reg)->Err_0));
    }
}

/// Law: a conditional block over an empty sub-circuit lowers to the empty
/// string.
pub proof fn lemma_conditional_empty(
    condition_register: String,
    condition_index: usize,
    circuit: Vec<Operation>,
    reg: Seq<char>,
)
    requires
        circuit@.len() == 0,
    ensures
        spec_lower(
            Operation::PragmaConditional { condition_register, condition_index, circuit },
            reg,
        ) == Ok::<Seq<char>, QasmErrorSpec>(Seq::<char>::empty()),
{
}

} // verus!
