//! The checks that the derivations make around their primitives: a seed
//! that yields no scalar, and a credential counter whose exponent is zero,
//! are refused, never replaced by another value.
use vstd::prelude::*;
use vstd::string::StringExecFns;

verus! {

/// The character of the decimal digit `d`.
pub open spec fn digit_spec(d: nat) -> char {
    if d == 0 { '0' }
    else if d == 1 { '1' }
    else if d == 2 { '2' }
    else if d == 3 { '3' }
    else if d == 4 { '4' }
    else if d == 5 { '5' }
    else if d == 6 { '6' }
    else if d == 7 { '7' }
    else if d == 8 { '8' }
    else { '9' }
}

/// `n` written in decimal, without leading zeros.
pub open spec fn decimal_spec(n: nat) -> Seq<char>
    decreases n,
{
    if n < 10 {
        seq![digit_spec(n)]
    } else {
        decimal_spec(n / 10).push(digit_spec(n % 10))
    }
}

fn digit(d: u8) -> (r: &'static str)
    requires
        d < 10,
    ensures
        r@ == seq![digit_spec(d as nat)],
{
    proof {
        reveal_strlit("0");
        reveal_strlit("1");
        reveal_strlit("2");
        reveal_strlit("3");
        reveal_strlit("4");
        reveal_strlit("5");
        reveal_strlit("6");
        reveal_strlit("7");
        reveal_strlit("8");
        reveal_strlit("9");
    }
    if d == 0 { "0" }
    else if d == 1 { "1" }
    else if d == 2 { "2" }
    else if d == 3 { "3" }
    else if d == 4 { "4" }
    else if d == 5 { "5" }
    else if d == 6 { "6" }
    else if d == 7 { "7" }
    else if d == 8 { "8" }
    else { "9" }
}

/// Appends `n` in decimal to `s`.
fn append_decimal(s: &mut String, n: u8)
    ensures
        final(s)@ == old(s)@ + decimal_spec(n as nat),
{
    proof {
        reveal_with_fuel(decimal_spec, 3);
    }
    if n >= 100 {
        s.append(digit(n / 100));
        s.append(digit((n / 10) % 10));
        assert(decimal_spec(n as nat / 10) =~= seq![digit_spec(n as nat / 100)].push(
            digit_spec((n as nat / 10) % 10),
        ));
    } else if n >= 10 {
        s.append(digit(n / 10));
    }
    s.append(digit(n % 10));
    assert(final(s)@ =~= old(s)@ + decimal_spec(n as nat));
}

/// Why a credential identifier could not be derived.
#[derive(Clone, Copy, Debug, PartialEq, Eq, Structural)]
pub enum CredIdError {
    /// The PRF exponent for this credential counter is zero.
    ExponentZero(u8),
}

/// The description of a credential identifier error.
pub open spec fn cred_id_error_message_spec(e: CredIdError) -> Seq<char> {
    match e {
        CredIdError::ExponentZero(c) => "Cannot create CredId: the exponent for credential counter "@
            + decimal_spec(c as nat) + " is zero."@,
    }
}

impl CredIdError {
    /// The description of this error, naming the counter.
    pub fn message(&self) -> (r: String)
        ensures
            r@ == cred_id_error_message_spec(*self),
    {
        match self {
            CredIdError::ExponentZero(c) => {
                let mut r = String::from_str(
                    "Cannot create CredId: the exponent for credential counter ",
                );
                append_decimal(&mut r, *c);
                r.append(" is zero.");
                r
            },
        }
    }
}

/// The exponent to commit to for credential counter `counter`, given what
/// the PRF returned for it: `None` where the exponent would be zero.
pub fn checked_exponent<E>(counter: u8, exponent: Option<E>) -> (r: Result<E, CredIdError>)
    ensures
        exponent is None <==> r == Err::<E, CredIdError>(CredIdError::ExponentZero(counter)),
        exponent matches Some(x) ==> r == Ok::<E, CredIdError>(x),
{
    match exponent {
        Some(x) => Ok(x),
        None => Err(CredIdError::ExponentZero(counter)),
    }
}

/// The seed could not be mapped to a secret scalar.
#[derive(Clone, Copy, Debug, PartialEq, Eq, Structural)]
pub struct SeedDerivationError;

impl SeedDerivationError {
    /// The description of this error.
    pub fn message(&self) -> (r: String)
        ensures
            r@ == "unable to build parse seed for bls_keygen."@,
    {
        String::from_str("unable to build parse seed for bls_keygen.")
    }
}

/// The secret scalar derived from a seed, given what the key generation
/// returned for it: `None` where it rejected the seed.
pub fn checked_seed_scalar<S>(derived: Option<S>) -> (r: Result<S, SeedDerivationError>)
    ensures
        derived is None <==> r == Err::<S, SeedDerivationError>(SeedDerivationError),
        derived matches Some(x) ==> r == Ok::<S, SeedDerivationError>(x),
{
    match derived {
        Some(x) => Ok(x),
        None => Err(SeedDerivationError),
    }
}

} // verus!
