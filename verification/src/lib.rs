//! Translation of abstract quantum circuits into OpenQASM 2.0 text.
//!
//! A circuit is an ordered sequence of operations; each operation is lowered
//! to one (possibly empty, possibly multi-line) statement of the target
//! dialect.  The translation is a pure function of the circuit and the name
//! of the quantum register; every emitted line is pinned down exactly by the
//! specification functions of this crate.

pub mod error;
pub mod euler;
pub mod interface;
pub mod laws;
pub mod numbers;
pub mod operations;
pub mod values;
