//! The primitive integer types as operands: each is one of the eight integer
//! kinds, and each of its values is a number within the range of that kind.

use crate::kinds::IntegerType;
use vstd::prelude::*;

verus! {

/// A primitive integer type whose values can be operands.
pub trait IntegerOperand: Copy + Sized {
    /// The kind of the type.
    spec fn kind() -> IntegerType;

    /// The number that a value of the type stands for.
    spec fn number(self) -> int;

    /// The kind of the type.
    fn integer_type() -> (t: IntegerType)
        ensures
            t == Self::kind(),
    ;

    /// The value as a wide integer.
    fn widen(self) -> (w: i128)
        ensures
            w == self.number(),
            Self::kind().holds(w as int),
    ;

    /// The value of the type that stands for `w`.
    fn narrow(w: i128) -> (v: Self)
        requires
            Self::kind().holds(w as int),
        ensures
            v.number() == w,
    ;
}

impl IntegerOperand for u8 {
    open spec fn kind() -> IntegerType {
        IntegerType::U8
    }

    open spec fn number(self) -> int {
        self as int
    }

    fn integer_type() -> (t: IntegerType) {
        IntegerType::U8
    }

    fn widen(self) -> (w: i128) {
        self as i128
    }

    fn narrow(w: i128) -> (v: Self) {
        w as u8
    }
}

impl IntegerOperand for u16 {
    open spec fn kind() -> IntegerType {
        IntegerType::U16
    }

    open spec fn number(self) -> int {
        self as int
    }

    fn integer_type() -> (t: IntegerType) {
        IntegerType::U16
    }

    fn widen(self) -> (w: i128) {
        self as i128
    }

    fn narrow(w: i128) -> (v: Self) {
        w as u16
    }
}

impl IntegerOperand for u32 {
    open spec fn kind() -> IntegerType {
        IntegerType::U32
    }

    open spec fn number(self) -> int {
        self as int
    }

    fn integer_type() -> (t: IntegerType) {
        IntegerType::U32
    }

    fn widen(self) -> (w: i128) {
        self as i128
    }

    fn narrow(w: i128) -> (v: Self) {
        w as u32
    }
}

impl IntegerOperand for u64 {
    open spec fn kind() -> IntegerType {
        IntegerType::U64
    }

    open spec fn number(self) -> int {
        self as int
    }

    fn integer_type() -> (t: IntegerType) {
        IntegerType::U64
    }

    fn widen(self) -> (w: i128) {
        self as i128
    }

    fn narrow(w: i128) -> (v: Self) {
        w as u64
    }
}

impl IntegerOperand for i8 {
    open spec fn kind() -> IntegerType {
        IntegerType::I8
    }

    open spec fn number(self) -> int {
        self as int
    }

    fn integer_type() -> (t: IntegerType) {
        IntegerType::I8
    }

    fn widen(self) -> (w: i128) {
        self as i128
    }

    fn narrow(w: i128) -> (v: Self) {
        w as i8
    }
}

impl IntegerOperand for i16 {
    open spec fn kind() -> IntegerType {
        IntegerType::I16
    }

    open spec fn number(self) -> int {
        self as int
    }

    fn integer_type() -> (t: IntegerType) {
        IntegerType::I16
    }

    fn widen(self) -> (w: i128) {
        self as i128
    }

    fn narrow(w: i128) -> (v: Self) {
        w as i16
    }
}

impl IntegerOperand for i32 {
    open spec fn kind() -> IntegerType {
        IntegerType::I32
    }

    open spec fn number(self) -> int {
        self as int
    }

    fn integer_type() -> (t: IntegerType) {
        IntegerType::I32
    }

    fn widen(self) -> (w: i128) {
        self as i128
    }

    fn narrow(w: i128) -> (v: Self) {
        w as i32
    }
}

impl IntegerOperand for i64 {
    open spec fn kind() -> IntegerType {
        IntegerType::I64
    }

    open spec fn number(self) -> int {
        self as int
    }

    fn integer_type() -> (t: IntegerType) {
        IntegerType::I64
    }

    fn widen(self) -> (w: i128) {
        self as i128
    }

    fn narrow(w: i128) -> (v: Self) {
        w as i64
    }
}

} // verus!
