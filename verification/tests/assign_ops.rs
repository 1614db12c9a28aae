// Compound assignment is sugar: `x op= y` must behave exactly as
// `x = x op y` for every arithmetic operation, with no separate mutation
// path. The vector types follow the same rule (see `packed_assign_ops` in the
// vector tests); here the rule is pinned on a small mixed-field value type.

use std::ops::{Add, AddAssign, Div, DivAssign, Mul, MulAssign, Sub, SubAssign};

#[derive(Debug, Clone, Copy, PartialEq)]
struct TestStruct {
    first: i16,
    last: f64,
}

impl Add for TestStruct {
    type Output = Self;

    fn add(self, rhs: Self) -> Self {
        TestStruct { first: self.first + rhs.first, last: self.last + rhs.last }
    }
}

impl Sub for TestStruct {
    type Output = Self;

    fn sub(self, rhs: Self) -> Self {
        TestStruct { first: self.first - rhs.first, last: self.last - rhs.last }
    }
}

impl Mul for TestStruct {
    type Output = Self;

    fn mul(self, rhs: Self) -> Self {
        TestStruct { first: self.first * rhs.first, last: self.last * rhs.last }
    }
}

impl Div for TestStruct {
    type Output = Self;

    fn div(self, rhs: Self) -> Self {
        TestStruct { first: self.first / rhs.first, last: self.last / rhs.last }
    }
}

impl AddAssign for TestStruct {
    fn add_assign(&mut self, rhs: Self) {
        *self = *self + rhs;
    }
}

impl SubAssign for TestStruct {
    fn sub_assign(&mut self, rhs: Self) {
        *self = *self - rhs;
    }
}

impl MulAssign for TestStruct {
    fn mul_assign(&mut self, rhs: Self) {
        *self = *self * rhs;
    }
}

impl DivAssign for TestStruct {
    fn div_assign(&mut self, rhs: Self) {
        *self = *self / rhs;
    }
}

#[test]
fn add() {
    let mut test = TestStruct { first: 1, last: 2. };
    test += TestStruct { first: 2, last: 1. };
    assert_eq!(test, TestStruct { first: 3, last: 3. })
}

#[test]
fn sub() {
    let mut test = TestStruct { first: 1, last: 2. };
    test -= TestStruct { first: 2, last: 1. };
    assert_eq!(test, TestStruct { first: -1, last: 1. })
}

#[test]
fn mul() {
    let mut test = TestStruct { first: 1, last: 2. };
    test *= TestStruct { first: 2, last: 1. };
    assert_eq!(test, TestStruct { first: 2, last: 2. })
}

#[test]
fn div() {
    let mut test = TestStruct { first: 1, last: 2. };
    test /= TestStruct { first: 2, last: 1. };
    assert_eq!(test, TestStruct { first: 0, last: 2. })
}
