//! Small arithmetic helpers: differences and decimal digits.
use vstd::prelude::*;

verus! {

/// The absolute difference `|a - b|` of two buffer quantities.
pub fn difference(a: usize, b: usize) -> (r: usize)
    ensures
        r == if a < b { b - a } else { a - b },
{
    if a < b {
        b - a
    } else {
        a - b
    }
}

/// What stops the program when an assertion of the debug build fails:
/// a debugger break with a message, or a panic.
pub enum DebuggerCatch {
    Handle(String),
    Panic(String),
}

/// A value that can be taken as a `usize`.
pub trait AsUsize {
    fn as_usize(&self) -> usize;
}

impl AsUsize for usize {
    fn as_usize(&self) -> (r: usize)
        ensures
            r == *self,
    {
        *self
    }
}

/// The character of the decimal digit `d`.
pub open spec fn digit_char(d: nat) -> char {
    ((d + 48) as u32) as char
}

/// The decimal representation of `n`, most significant digit first.
pub open spec fn decimal(n: nat) -> Seq<char>
    decreases n,
{
    if n < 10 {
        seq![digit_char(n)]
    } else {
        decimal(n / 10).push(digit_char(n % 10))
    }
}

/// Appends the decimal representation of `n` to `out`.
pub fn push_decimal(out: &mut Vec<char>, n: usize)
    ensures
        final(out)@ == old(out)@ + decimal(n as nat),
    decreases n,
{
    if n >= 10 {
        push_decimal(out, n / 10);
    }
    let d = (n % 10) as u8;
    out.push((d + 48) as char);
    proof {
        assert(final(out)@ =~= old(out)@ + decimal(n as nat)) by {
            if n >= 10 {
                assert(decimal(n as nat) == decimal((n / 10) as nat).push(digit_char((n % 10) as nat)));
            }
        }
    }
}

/// The number of decimal digits of a value.
pub trait CountDigits {
    fn digits(&self) -> u8;
}

proof fn lemma_decimal_len_step(n: nat)
    requires
        n >= 10,
    ensures
        decimal(n).len() == decimal(n / 10).len() + 1,
{
}

/// Ten to the power `k`.
pub open spec fn pow10(k: nat) -> nat
    decreases k,
{
    if k == 0 {
        1
    } else {
        10 * pow10((k - 1) as nat)
    }
}

proof fn lemma_decimal_len_bound(n: nat, k: nat)
    requires
        k >= 1,
        n < pow10(k),
    ensures
        1 <= decimal(n).len() <= k,
    decreases n,
{
    if n >= 10 {
        assert(k >= 2) by {
            reveal_with_fuel(pow10, 2);
        }
        let p = pow10((k - 1) as nat);
        assert(n / 10 < p) by (nonlinear_arith)
            requires
                n < 10 * p,
        ;
        lemma_decimal_len_bound(n / 10, (k - 1) as nat);
    }
}

impl CountDigits for usize {
    fn digits(&self) -> (r: u8)
        ensures
            r == decimal(*self as nat).len(),
    {
        let mut value = *self;
        let mut digits: u8 = 1;
        if value < 10 {
            digits
        } else {
            proof {
                assert(pow10(20) == 100_000_000_000_000_000_000) by {
                    reveal_with_fuel(pow10, 21);
                }
                lemma_decimal_len_bound(*self as nat, 20);
            }
            while value >= 10
                invariant
                    1 <= digits,
                    decimal(*self as nat).len() == decimal(value as nat).len() + digits - 1,
                    decimal(*self as nat).len() <= 20,
                decreases value,
            {
                proof {
                    lemma_decimal_len_step(value as nat);
                }
                value = value / 10;
                digits = digits + 1;
            }
            digits
        }
    }
}

} // verus!
