//! `ConvergenceLoss`: distance to a fixed point.
use vstd::prelude::*;
use vstd::string::StringExecFns;

use crate::loss::{total_absorbs, Loss};

verus! {

/// Distance to crystal. Zero means crystallized. Combine takes the max
/// (the furthest from crystal dominates).
#[derive(Clone, Copy, Debug, PartialEq, Eq)]
pub struct ConvergenceLoss(usize);

impl View for ConvergenceLoss {
    type V = usize;

    closed spec fn view(&self) -> usize {
        self.0
    }
}

impl ConvergenceLoss {
    /// Create a new ConvergenceLoss with the given number of steps from crystal.
    pub fn new(steps: usize) -> (r: Self)
        ensures
            r@ == steps,
    {
        ConvergenceLoss(steps)
    }

    /// The number of steps remaining to reach crystal (convergence).
    pub fn steps(&self) -> (n: usize)
        ensures
            n == self@,
    {
        self.0
    }

    /// The text `"<steps> steps from crystal"`.
    pub fn to_string(&self) -> (s: String)
        ensures
            s@ == decimal(self@ as nat) + steps_suffix(),
    {
        let mut s = decimal_text(self.0);
        s.append(" steps from crystal");
        s
    }
}

/// The ASCII digit for `d < 10`.
pub open spec fn digit(d: nat) -> char {
    (48 + d) as char
}

/// The decimal notation of `n`, without leading zeros.
pub open spec fn decimal(n: nat) -> Seq<char>
    decreases n,
{
    if n < 10 {
        seq![digit(n)]
    } else {
        decimal(n / 10).push(digit(n % 10))
    }
}

/// The number that a string of decimal digits denotes, each character `c`
/// worth `c - '0'`.
pub open spec fn decimal_value(s: Seq<char>) -> int
    decreases s.len(),
{
    if s.len() == 0 {
        0
    } else {
        decimal_value(s.drop_last()) * 10 + (s.last() as int - 48)
    }
}

/// The decimal notation of `n` is a non-empty string of the characters
/// `'0'` to `'9'`, starts with `'0'` only for zero, and denotes `n`.
pub proof fn lemma_decimal_denotes(n: nat)
    ensures
        decimal(n).len() > 0,
        forall|i: int| 0 <= i < decimal(n).len() ==> 48 <= #[trigger] (decimal(n)[i] as int) <= 57,
        n > 0 ==> decimal(n)[0] as int != 48,
        decimal_value(decimal(n)) == n,
    decreases n,
{
    if n >= 10 {
        lemma_decimal_denotes(n / 10);
        let p = decimal(n / 10);
        let s = p.push(digit(n % 10));
        assert(s.drop_last() =~= p);
        assert(s[0] == p[0]);
        assert forall|i: int| 0 <= i < s.len() implies 48 <= #[trigger] (s[i] as int) <= 57 by {
            if i < p.len() {
                assert(s[i] == p[i]);
            }
        }
        assert(digit(n % 10) as int == 48 + n % 10);
        assert(decimal_value(s) == decimal_value(p) * 10 + (n % 10));
        assert((n / 10) * 10 + n % 10 == n) by (nonlinear_arith);
        assert(decimal(n) == s);
        assert(decimal_value(p) == n / 10);
        assert(decimal_value(decimal(n)) == n);
    } else {
        let s = seq![digit(n)];
        assert(s.drop_last() =~= Seq::<char>::empty());
        assert(digit(n) as int == 48 + n);
        assert(decimal(n) == s);
        assert(decimal_value(s) == decimal_value(Seq::<char>::empty()) * 10 + (n as int));
        assert(decimal_value(decimal(n)) == n);
    }
}

/// The text that follows the number of steps.
pub open spec fn steps_suffix() -> Seq<char> {
    " steps from crystal"@
}

/// The one-character text of the digit `d`.
fn digit_text(d: usize) -> (s: &'static str)
    requires
        d < 10,
    ensures
        s@ == seq![digit(d as nat)],
{
    proof {
        reveal_strlit("0");
        reveal_strlit("1");
        reveal_strlit("2");
        reveal_strlit("3");
        reveal_strlit("4");
        reveal_strlit("5");
        reveal_strlit("6");
        reveal_strlit("7");
        reveal_strlit("8");
        reveal_strlit("9");
    }
    let s = if d == 0 {
        "0"
    } else if d == 1 {
        "1"
    } else if d == 2 {
        "2"
    } else if d == 3 {
        "3"
    } else if d == 4 {
        "4"
    } else if d == 5 {
        "5"
    } else if d == 6 {
        "6"
    } else if d == 7 {
        "7"
    } else if d == 8 {
        "8"
    } else {
        "9"
    };
    proof {
        assert(s@ =~= seq![digit(d as nat)]);
    }
    s
}

/// The decimal notation of `n`.
fn decimal_text(n: usize) -> (s: String)
    ensures
        s@ == decimal(n as nat),
    decreases n,
{
    if n < 10 {
        let mut s = String::new();
        s.append(digit_text(n));
        proof {
            assert(s@ =~= decimal(n as nat));
        }
        s
    } else {
        let mut s = decimal_text(n / 10);
        s.append(digit_text(n % 10));
        proof {
            assert(s@ =~= decimal(n as nat));
        }
        s
    }
}

impl Default for ConvergenceLoss {
    /// Zero steps from crystal.
    fn default() -> (r: Self)
        ensures
            r@ == 0,
    {
        ConvergenceLoss(0)
    }
}

impl Loss for ConvergenceLoss {
    open spec fn zero_spec() -> usize {
        0
    }

    open spec fn total_spec() -> usize {
        usize::MAX
    }

    open spec fn combine_spec(a: usize, b: usize) -> usize {
        if a >= b {
            a
        } else {
            b
        }
    }

    fn zero() -> (r: Self) {
        ConvergenceLoss(0)
    }

    fn total() -> (r: Self) {
        ConvergenceLoss(usize::MAX)
    }

    fn is_zero(&self) -> (b: bool) {
        self.0 == 0
    }

    fn combine(self, other: Self) -> (r: Self) {
        if self.0 >= other.0 {
            self
        } else {
            other
        }
    }

    proof fn lemma_zero_left(x: usize) {
    }

    proof fn lemma_zero_right(x: usize) {
    }

    proof fn lemma_combine_assoc(a: usize, b: usize, c: usize) {
    }
}

/// `ConvergenceLoss::total()` (`usize::MAX` steps) absorbs every other loss.
pub proof fn lemma_convergence_total_absorbs()
    ensures
        total_absorbs::<ConvergenceLoss>(),
{
}

} // verus!
