//! The shape-mismatch error of a matrix product, and the decimal rendering that the
//! crate's error messages use.
use vstd::prelude::*;
use vstd::string::StringExecFns;

verus! {

/// The character of a decimal digit `d < 10`.
pub open spec fn digit_char(d: nat) -> char {
    if d == 0 {
        '0'
    } else if d == 1 {
        '1'
    } else if d == 2 {
        '2'
    } else if d == 3 {
        '3'
    } else if d == 4 {
        '4'
    } else if d == 5 {
        '5'
    } else if d == 6 {
        '6'
    } else if d == 7 {
        '7'
    } else if d == 8 {
        '8'
    } else {
        '9'
    }
}

/// The decimal form of `n`, without leading zeros.
pub open spec fn decimal(n: nat) -> Seq<char>
    decreases n,
{
    if n < 10 {
        seq![digit_char(n)]
    } else {
        decimal(n / 10) + seq![digit_char(n % 10)]
    }
}

fn digit_str(d: usize) -> (r: &'static str)
    requires
        d < 10,
    ensures
        r@ == seq![digit_char(d as nat)],
{
    if d == 0 {
        proof { reveal_strlit("0"); }
        "0"
    } else if d == 1 {
        proof { reveal_strlit("1"); }
        "1"
    } else if d == 2 {
        proof { reveal_strlit("2"); }
        "2"
    } else if d == 3 {
        proof { reveal_strlit("3"); }
        "3"
    } else if d == 4 {
        proof { reveal_strlit("4"); }
        "4"
    } else if d == 5 {
        proof { reveal_strlit("5"); }
        "5"
    } else if d == 6 {
        proof { reveal_strlit("6"); }
        "6"
    } else if d == 7 {
        proof { reveal_strlit("7"); }
        "7"
    } else if d == 8 {
        proof { reveal_strlit("8"); }
        "8"
    } else {
        proof { reveal_strlit("9"); }
        "9"
    }
}

/// Appends the decimal form of `n` to `s`.
pub fn push_decimal(s: &mut String, n: usize)
    ensures
        final(s)@ == old(s)@ + decimal(n as nat),
    decreases n,
{
    if n >= 10 {
        push_decimal(s, n / 10);
    }
    s.append(digit_str(n % 10));
    assert(final(s)@ =~= old(s)@ + decimal(n as nat));
}

/// Two matrices whose product is undefined: the left operand has as many columns as
/// `dim_one[0]` and the right one as many rows as `dim_two[1]`, and these differ.
/// Each shape is recorded columns first, then rows.
#[derive(Debug, Clone, PartialEq, Eq)]
pub struct DimensionError {
    pub dim_one: [usize; 2],
    pub dim_two: [usize; 2],
}

/// "Matrix of {c1} x {r1} is incompatible with matrix of {c2} x {r2}."
pub open spec fn dimension_message(dim_one: [usize; 2], dim_two: [usize; 2]) -> Seq<char> {
    "Matrix of "@ + decimal(dim_one[0] as nat) + " x "@ + decimal(dim_one[1] as nat)
        + " is incompatible with matrix of "@ + decimal(dim_two[0] as nat) + " x "@
        + decimal(dim_two[1] as nat) + "."@
}

impl DimensionError {
    pub fn new(dim_one: [usize; 2], dim_two: [usize; 2]) -> (r: Self)
        ensures
            r.dim_one == dim_one,
            r.dim_two == dim_two,
    {
        DimensionError { dim_one, dim_two }
    }

    pub open spec fn spec_message(&self) -> Seq<char> {
        dimension_message(self.dim_one, self.dim_two)
    }

    /// The human-readable form of the error.
    pub fn message(&self) -> (r: String)
        ensures
            r@ == self.spec_message(),
    {
        let mut s = String::new();
        s.append("Matrix of ");
        push_decimal(&mut s, self.dim_one[0]);
        s.append(" x ");
        push_decimal(&mut s, self.dim_one[1]);
        s.append(" is incompatible with matrix of ");
        push_decimal(&mut s, self.dim_two[0]);
        s.append(" x ");
        push_decimal(&mut s, self.dim_two[1]);
        s.append(".");
        assert(s@ =~= self.spec_message());
        s
    }
}

} // verus!
