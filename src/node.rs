//! The element types a matrix can hold.
use vstd::prelude::*;

verus! {

/// A numeric element: addition, multiplication, an additive zero, an order and an
/// equality test, each given as a spec function together with an executable form.
///
/// `plus_ok` / `times_ok` say when the machine operation is defined (no overflow);
/// under them the executable operation returns the spec result.
pub trait Node: Copy + Sized {
    spec fn spec_plus(a: Self, b: Self) -> Self;

    spec fn spec_times(a: Self, b: Self) -> Self;

    spec fn plus_ok(a: Self, b: Self) -> bool;

    spec fn times_ok(a: Self, b: Self) -> bool;

    spec fn spec_zero() -> Self;

    spec fn spec_lt(a: Self, b: Self) -> bool;

    fn plus(self, other: Self) -> (r: Self)
        requires
            Self::plus_ok(self, other),
        ensures
            r == Self::spec_plus(self, other),
    ;

    fn times(self, other: Self) -> (r: Self)
        requires
            Self::times_ok(self, other),
        ensures
            r == Self::spec_times(self, other),
    ;

    fn zero() -> (r: Self)
        ensures
            r == Self::spec_zero(),
    ;

    fn less_than(&self, other: &Self) -> (r: bool)
        ensures
            r == Self::spec_lt(*self, *other),
    ;

    fn same(&self, other: &Self) -> (r: bool)
        ensures
            r == (*self == *other),
    ;
}

impl Node for i32 {
    open spec fn spec_plus(a: i32, b: i32) -> i32 {
        (a + b) as i32
    }

    open spec fn spec_times(a: i32, b: i32) -> i32 {
        (a * b) as i32
    }

    open spec fn plus_ok(a: i32, b: i32) -> bool {
        i32::MIN <= a + b <= i32::MAX
    }

    open spec fn times_ok(a: i32, b: i32) -> bool {
        i32::MIN <= a * b <= i32::MAX
    }

    open spec fn spec_zero() -> i32 {
        0
    }

    open spec fn spec_lt(a: i32, b: i32) -> bool {
        a < b
    }

    fn plus(self, other: i32) -> (r: i32) {
        self + other
    }

    fn times(self, other: i32) -> (r: i32) {
        self * other
    }

    fn zero() -> (r: i32) {
        0
    }

    fn less_than(&self, other: &i32) -> (r: bool) {
        *self < *other
    }

    fn same(&self, other: &i32) -> (r: bool) {
        *self == *other
    }
}

impl Node for i64 {
    open spec fn spec_plus(a: i64, b: i64) -> i64 {
        (a + b) as i64
    }

    open spec fn spec_times(a: i64, b: i64) -> i64 {
        (a * b) as i64
    }

    open spec fn plus_ok(a: i64, b: i64) -> bool {
        i64::MIN <= a + b <= i64::MAX
    }

    open spec fn times_ok(a: i64, b: i64) -> bool {
        i64::MIN <= a * b <= i64::MAX
    }

    open spec fn spec_zero() -> i64 {
        0
    }

    open spec fn spec_lt(a: i64, b: i64) -> bool {
        a < b
    }

    fn plus(self, other: i64) -> (r: i64) {
        self + other
    }

    fn times(self, other: i64) -> (r: i64) {
        self * other
    }

    fn zero() -> (r: i64) {
        0
    }

    fn less_than(&self, other: &i64) -> (r: bool) {
        *self < *other
    }

    fn same(&self, other: &i64) -> (r: bool) {
        *self == *other
    }
}

} // verus!
