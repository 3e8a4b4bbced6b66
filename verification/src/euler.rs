//! Euler-angle decomposition of a generic single-qubit unitary.
//!
//! A `SingleQubitGate` carries two complex amplitudes alpha and beta; the
//! target dialect wants three Euler angles.  The decomposition
//! (`theta = 2*arccos(|alpha|)`, `phi = arg(beta) - arg(alpha)`,
//! `lambda = -arg(beta) - arg(alpha)`) is real arithmetic, computed by the
//! calculator crate; verified code sees its result only under the name
//! [`u3_params_of`].

use vstd::prelude::*;
use qoqo_calculator::CalculatorComplex;
use qoqo_calculator::CalculatorFloat;

verus! {

/// The decimal text `"theta,phi,lambda"` of the three Euler angles, each
/// formatted to 15 fractional digits, for the amplitudes whose components
/// have the given decimal texts.  The result is a function of the four
/// texts alone.
pub uninterp spec fn u3_params_of(
    alpha_r: Seq<char>,
    alpha_i: Seq<char>,
    beta_r: Seq<char>,
    beta_i: Seq<char>,
) -> Seq<char>;

/// Relies on qoqo_calculator: `CalculatorFloat::from(&str)`, which reads
/// numeric text as a concrete float, `CalculatorComplex::new`, `norm`,
/// `arg`, `acos`, and `Add`/`Sub`/`Mul` on concrete floats, to turn the
/// four amplitude components into the Euler angles `2*arccos(|alpha|)`,
/// `arg(beta)-arg(alpha)`, `-arg(beta)-arg(alpha)`, each formatted to 15
/// fractional digits.  On concrete floats those calls return concrete
/// floats, so `float()` cannot fail; a component text that is no number
/// stays symbolic and leaves that angle's text empty.  No call panics.
#[verifier::external_body]
pub(crate) fn u3_params(alpha_r: &str, alpha_i: &str, beta_r: &str, beta_i: &str) -> (r: String)
    ensures
        r@ == u3_params_of(alpha_r@, alpha_i@, beta_r@, beta_i@),
{
    let alpha = CalculatorComplex::new(
        CalculatorFloat::from(alpha_r),
        CalculatorFloat::from(alpha_i),
    );
    let beta = CalculatorComplex::new(CalculatorFloat::from(beta_r), CalculatorFloat::from(beta_i));
    let theta = alpha.norm().acos() * 2;
    let phi = alpha.arg() * (-1) + beta.arg();
    let lambda = alpha.arg() * (-1) - beta.arg();
    let t = theta.float().map(|x| format!("{x:.15}")).unwrap_or_default();
    let p = phi.float().map(|x| format!("{x:.15}")).unwrap_or_default();
    let l = lambda.float().map(|x| format!("{x:.15}")).unwrap_or_default();
    format!("{t},{p},{l}")
}

} // verus!
