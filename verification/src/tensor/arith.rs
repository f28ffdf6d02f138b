use vstd::prelude::*;

use super::dtype::DType;

verus! {

/// The magnitude of the smallest value of an integer element type (`Float32` counts as 32 bits).
pub open spec fn half_modulus(dt: DType) -> int {
    match dt {
        DType::Int16 => 0x8000,
        _ => 0x8000_0000,
    }
}

/// `x` lies in the range of the integer element type `dt`.
pub open spec fn in_range(dt: DType, x: int) -> bool {
    -half_modulus(dt) <= x < half_modulus(dt)
}

/// A primitive type that holds one tensor element.
pub trait Element: Copy + Sized {
    /// The value of the element, as an integer.
    spec fn to_int(self) -> int;
}

impl Element for u32 {
    open spec fn to_int(self) -> int {
        self as int
    }
}

impl Element for i32 {
    open spec fn to_int(self) -> int {
        self as int
    }
}

impl Element for i16 {
    open spec fn to_int(self) -> int {
        self as int
    }
}

/// An integer element type.
pub trait IntElement: Element {
    /// The element type this primitive stands for.
    spec fn elem_dtype() -> DType;

    /// Every element lies in the range of its type.
    proof fn lemma_range(x: Self)
        ensures
            in_range(Self::elem_dtype(), x.to_int()),
    ;

    fn zero() -> (r: Self)
        ensures
            r.to_int() == 0,
    ;

    fn plus(self, other: Self) -> (r: Self)
        requires
            in_range(Self::elem_dtype(), self.to_int() + other.to_int()),
        ensures
            r.to_int() == self.to_int() + other.to_int(),
    ;

    fn minus(self, other: Self) -> (r: Self)
        requires
            in_range(Self::elem_dtype(), self.to_int() - other.to_int()),
        ensures
            r.to_int() == self.to_int() - other.to_int(),
    ;

    fn times(self, other: Self) -> (r: Self)
        requires
            in_range(Self::elem_dtype(), self.to_int() * other.to_int()),
        ensures
            r.to_int() == self.to_int() * other.to_int(),
    ;

    fn relu(self) -> (r: Self)
        ensures
            r.to_int() == (if self.to_int() < 0 { 0 } else { self.to_int() }),
    ;

    /// The element as a 64-bit integer.
    fn widen(self) -> (r: i64)
        ensures
            r as int == self.to_int(),
    ;

    /// Whether `x` lies in the range of this element type.
    fn holds(x: i64) -> (r: bool)
        ensures
            r == in_range(Self::elem_dtype(), x as int),
    ;
}

impl IntElement for i32 {
    open spec fn elem_dtype() -> DType {
        DType::Int32
    }

    proof fn lemma_range(x: i32) {
    }

    fn zero() -> (r: i32) {
        0
    }

    fn plus(self, other: i32) -> (r: i32) {
        self + other
    }

    fn minus(self, other: i32) -> (r: i32) {
        self - other
    }

    fn times(self, other: i32) -> (r: i32) {
        self * other
    }

    fn relu(self) -> (r: i32) {
        if self < 0 {
            0
        } else {
            self
        }
    }

    fn widen(self) -> (r: i64) {
        self as i64
    }

    fn holds(x: i64) -> (r: bool) {
        -0x8000_0000i64 <= x && x < 0x8000_0000i64
    }
}

impl IntElement for i16 {
    open spec fn elem_dtype() -> DType {
        DType::Int16
    }

    proof fn lemma_range(x: i16) {
    }

    fn zero() -> (r: i16) {
        0
    }

    fn plus(self, other: i16) -> (r: i16) {
        self + other
    }

    fn minus(self, other: i16) -> (r: i16) {
        self - other
    }

    fn times(self, other: i16) -> (r: i16) {
        self * other
    }

    fn relu(self) -> (r: i16) {
        if self < 0 {
            0
        } else {
            self
        }
    }

    fn widen(self) -> (r: i64) {
        self as i64
    }

    fn holds(x: i64) -> (r: bool) {
        -0x8000i64 <= x && x < 0x8000i64
    }
}

} // verus!
