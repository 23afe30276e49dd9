//! The closed vocabularies of the protocol: operand types, operations and the
//! families that operations fall into, each with its name on the wire.

use crate::text::{chars_of, separator_free, spells};
use vstd::prelude::*;

verus! {

/// The eight fixed-width integer kinds.
#[derive(Clone, Copy, Debug, PartialEq, Eq, Structural)]
pub enum IntegerType {
    U8,
    U16,
    U32,
    U64,
    I8,
    I16,
    I32,
    I64,
}

/// The type of the right-hand operand of a shift: any integer kind, chosen
/// independently of the type of the value that is shifted.
pub type ShiftAmountType = IntegerType;

/// The ten primitive numeric kinds that operands can have.
#[derive(Clone, Copy, Debug, PartialEq, Eq, Structural)]
pub enum OperandType {
    Int(IntegerType),
    F32,
    F64,
}

/// The four families of operations.
#[derive(Clone, Copy, Debug, PartialEq, Eq, Structural)]
pub enum Family {
    Arithmetic,
    Bitwise,
    Shift,
    Comparison,
}

/// The twelve operations.
#[derive(Clone, Copy, Debug, PartialEq, Eq, Structural)]
pub enum Operation {
    Add,
    Sub,
    Mul,
    Div,
    Rem,
    BitAnd,
    BitOr,
    BitXor,
    Shl,
    Shr,
    Eq,
    Cmp,
}

impl IntegerType {
    /// The canonical lowercase name of the type.
    pub open spec fn name(self) -> Seq<char> {
        match self {
            IntegerType::U8 => "u8"@,
            IntegerType::U16 => "u16"@,
            IntegerType::U32 => "u32"@,
            IntegerType::U64 => "u64"@,
            IntegerType::I8 => "i8"@,
            IntegerType::I16 => "i16"@,
            IntegerType::I32 => "i32"@,
            IntegerType::I64 => "i64"@,
        }
    }

    /// The type that `word` names, by exact match.
    pub open spec fn named(word: Seq<char>) -> Option<IntegerType> {
        if word == "u8"@ {
            Some(IntegerType::U8)
        } else if word == "u16"@ {
            Some(IntegerType::U16)
        } else if word == "u32"@ {
            Some(IntegerType::U32)
        } else if word == "u64"@ {
            Some(IntegerType::U64)
        } else if word == "i8"@ {
            Some(IntegerType::I8)
        } else if word == "i16"@ {
            Some(IntegerType::I16)
        } else if word == "i32"@ {
            Some(IntegerType::I32)
        } else if word == "i64"@ {
            Some(IntegerType::I64)
        } else {
            None
        }
    }

    /// The width of the type in bits.
    pub open spec fn bits(self) -> nat {
        match self {
            IntegerType::U8 | IntegerType::I8 => 8,
            IntegerType::U16 | IntegerType::I16 => 16,
            IntegerType::U32 | IntegerType::I32 => 32,
            IntegerType::U64 | IntegerType::I64 => 64,
        }
    }

    /// Whether the type has negative values.
    pub open spec fn is_signed(self) -> bool {
        match self {
            IntegerType::U8 | IntegerType::U16 | IntegerType::U32 | IntegerType::U64 => false,
            IntegerType::I8 | IntegerType::I16 | IntegerType::I32 | IntegerType::I64 => true,
        }
    }

    /// The number of values of the type: two to the power of its width.
    pub open spec fn modulus(self) -> int {
        match self {
            IntegerType::U8 | IntegerType::I8 => 0x100,
            IntegerType::U16 | IntegerType::I16 => 0x1_0000,
            IntegerType::U32 | IntegerType::I32 => 0x1_0000_0000,
            IntegerType::U64 | IntegerType::I64 => 0x1_0000_0000_0000_0000,
        }
    }

    /// The least value of the type.
    pub open spec fn min_value(self) -> int {
        if self.is_signed() {
            -(self.modulus() / 2)
        } else {
            0
        }
    }

    /// The greatest value of the type.
    pub open spec fn max_value(self) -> int {
        if self.is_signed() {
            self.modulus() / 2 - 1
        } else {
            self.modulus() - 1
        }
    }

    /// Whether `v` is a value of the type.
    pub open spec fn holds(self, v: int) -> bool {
        self.min_value() <= v <= self.max_value()
    }

    /// The name of the type as a string.
    pub fn token(self) -> (word: &'static str)
        ensures
            word@ == self.name(),
    {
        match self {
            IntegerType::U8 => "u8",
            IntegerType::U16 => "u16",
            IntegerType::U32 => "u32",
            IntegerType::U64 => "u64",
            IntegerType::I8 => "i8",
            IntegerType::I16 => "i16",
            IntegerType::I32 => "i32",
            IntegerType::I64 => "i64",
        }
    }

    /// Finds the type that `word` names; `None` where it names none.
    pub fn parse(word: &str) -> (found: Option<IntegerType>)
        ensures
            found == IntegerType::named(word@),
    {
        let chars = chars_of(word);
        if spells(&chars, "u8") {
            Some(IntegerType::U8)
        } else if spells(&chars, "u16") {
            Some(IntegerType::U16)
        } else if spells(&chars, "u32") {
            Some(IntegerType::U32)
        } else if spells(&chars, "u64") {
            Some(IntegerType::U64)
        } else if spells(&chars, "i8") {
            Some(IntegerType::I8)
        } else if spells(&chars, "i16") {
            Some(IntegerType::I16)
        } else if spells(&chars, "i32") {
            Some(IntegerType::I32)
        } else if spells(&chars, "i64") {
            Some(IntegerType::I64)
        } else {
            None
        }
    }

    /// Whether the type has negative values.
    pub fn signed(self) -> (yes: bool)
        ensures
            yes == self.is_signed(),
    {
        match self {
            IntegerType::U8 | IntegerType::U16 | IntegerType::U32 | IntegerType::U64 => false,
            IntegerType::I8 | IntegerType::I16 | IntegerType::I32 | IntegerType::I64 => true,
        }
    }

    /// The width of the type in bits.
    pub fn width(self) -> (w: u32)
        ensures
            w == self.bits(),
    {
        match self {
            IntegerType::U8 | IntegerType::I8 => 8,
            IntegerType::U16 | IntegerType::I16 => 16,
            IntegerType::U32 | IntegerType::I32 => 32,
            IntegerType::U64 | IntegerType::I64 => 64,
        }
    }

    /// The number of values of the type.
    pub fn cardinality(self) -> (m: i128)
        ensures
            m == self.modulus(),
    {
        match self {
            IntegerType::U8 | IntegerType::I8 => 0x100,
            IntegerType::U16 | IntegerType::I16 => 0x1_0000,
            IntegerType::U32 | IntegerType::I32 => 0x1_0000_0000,
            IntegerType::U64 | IntegerType::I64 => 0x1_0000_0000_0000_0000,
        }
    }

    /// The least value of the type.
    pub fn lowest(self) -> (v: i128)
        ensures
            v == self.min_value(),
    {
        if self.signed() {
            -(self.cardinality() / 2)
        } else {
            0
        }
    }

    /// The greatest value of the type.
    pub fn highest(self) -> (v: i128)
        ensures
            v == self.max_value(),
    {
        if self.signed() {
            self.cardinality() / 2 - 1
        } else {
            self.cardinality() - 1
        }
    }

    /// Every type is found again by its own name.
    pub proof fn lemma_named_name(self)
        ensures
            IntegerType::named(self.name()) == Some(self),
    {
        reveal_strlit("u8");
        reveal_strlit("u16");
        reveal_strlit("u32");
        reveal_strlit("u64");
        reveal_strlit("i8");
        reveal_strlit("i16");
        reveal_strlit("i32");
        reveal_strlit("i64");
        assert("u8"@.len() == 2 && "i8"@.len() == 2);
        assert("u16"@.len() == 3 && "u32"@.len() == 3 && "u64"@.len() == 3);
        assert("i16"@.len() == 3 && "i32"@.len() == 3 && "i64"@.len() == 3);
        assert("u8"@[0] == 'u' && "i8"@[0] == 'i');
        assert("u16"@[0] == 'u' && "u32"@[0] == 'u' && "u64"@[0] == 'u');
        assert("i16"@[0] == 'i' && "i32"@[0] == 'i' && "i64"@[0] == 'i');
        assert("u16"@[1] == '1' && "u32"@[1] == '3' && "u64"@[1] == '6');
        assert("i16"@[1] == '1' && "i32"@[1] == '3' && "i64"@[1] == '6');
    }

    /// No name holds a path separator.
    pub proof fn lemma_name_plain(self)
        ensures
            separator_free(self.name()),
    {
        reveal_strlit("u8");
        reveal_strlit("u16");
        reveal_strlit("u32");
        reveal_strlit("u64");
        reveal_strlit("i8");
        reveal_strlit("i16");
        reveal_strlit("i32");
        reveal_strlit("i64");
    }
}

impl OperandType {
    /// The canonical lowercase name of the type.
    pub open spec fn name(self) -> Seq<char> {
        match self {
            OperandType::Int(t) => t.name(),
            OperandType::F32 => "f32"@,
            OperandType::F64 => "f64"@,
        }
    }

    /// The type that `word` names, by exact match.
    pub open spec fn named(word: Seq<char>) -> Option<OperandType> {
        if word == "f32"@ {
            Some(OperandType::F32)
        } else if word == "f64"@ {
            Some(OperandType::F64)
        } else {
            match IntegerType::named(word) {
                Some(t) => Some(OperandType::Int(t)),
                None => None,
            }
        }
    }

    /// Whether the type is one of the eight integer kinds.
    pub open spec fn is_integer(self) -> bool {
        self is Int
    }

    /// The name of the type as a string.
    pub fn token(self) -> (word: &'static str)
        ensures
            word@ == self.name(),
    {
        match self {
            OperandType::Int(t) => t.token(),
            OperandType::F32 => "f32",
            OperandType::F64 => "f64",
        }
    }

    /// Finds the type that `word` names; `None` where it names none.
    pub fn parse(word: &str) -> (found: Option<OperandType>)
        ensures
            found == OperandType::named(word@),
    {
        let chars = chars_of(word);
        if spells(&chars, "f32") {
            Some(OperandType::F32)
        } else if spells(&chars, "f64") {
            Some(OperandType::F64)
        } else {
            match IntegerType::parse(word) {
                Some(t) => Some(OperandType::Int(t)),
                None => None,
            }
        }
    }

    /// The integer kind behind the type, if it is one.
    pub fn integer(self) -> (int_type: Option<IntegerType>)
        ensures
            int_type == (match self {
                OperandType::Int(t) => Some(t),
                _ => None,
            }),
    {
        match self {
            OperandType::Int(t) => Some(t),
            _ => None,
        }
    }

    /// Every type is found again by its own name.
    pub proof fn lemma_named_name(self)
        ensures
            OperandType::named(self.name()) == Some(self),
    {
        reveal_strlit("f32");
        reveal_strlit("f64");
        reveal_strlit("u8");
        reveal_strlit("u16");
        reveal_strlit("u32");
        reveal_strlit("u64");
        reveal_strlit("i8");
        reveal_strlit("i16");
        reveal_strlit("i32");
        reveal_strlit("i64");
        assert("f32"@.len() == 3 && "f32"@[0] == 'f' && "f32"@[1] == '3');
        assert("f64"@.len() == 3 && "f64"@[0] == 'f' && "f64"@[1] == '6');
        match self {
            OperandType::Int(t) => {
                t.lemma_named_name();
                assert(t.name()[0] == 'u' || t.name()[0] == 'i');
            },
            _ => {},
        }
    }

    /// No name holds a path separator.
    pub proof fn lemma_name_plain(self)
        ensures
            separator_free(self.name()),
    {
        reveal_strlit("f32");
        reveal_strlit("f64");
        match self {
            OperandType::Int(t) => t.lemma_name_plain(),
            _ => {},
        }
    }
}

impl Family {
    /// How many path segments a request of this family has.
    pub open spec fn arity(self) -> nat {
        match self {
            Family::Shift => 5,
            _ => 4,
        }
    }

    /// Whether operations of this family take operands of type `t`: the bitwise
    /// and shift families take integers only.
    pub open spec fn admits(self, t: OperandType) -> bool {
        match self {
            Family::Bitwise | Family::Shift => t.is_integer(),
            Family::Arithmetic | Family::Comparison => true,
        }
    }

    /// How many path segments a request of this family has.
    pub fn segments(self) -> (n: usize)
        ensures
            n == self.arity(),
    {
        match self {
            Family::Shift => 5,
            _ => 4,
        }
    }

    /// Whether operations of this family take operands of type `t`.
    pub fn takes(self, t: OperandType) -> (yes: bool)
        ensures
            yes == self.admits(t),
    {
        match self {
            Family::Bitwise | Family::Shift => t.integer().is_some(),
            Family::Arithmetic | Family::Comparison => true,
        }
    }
}

impl Operation {
    /// The name of the operation on the wire.
    pub open spec fn name(self) -> Seq<char> {
        match self {
            Operation::Add => "add"@,
            Operation::Sub => "sub"@,
            Operation::Mul => "mul"@,
            Operation::Div => "div"@,
            Operation::Rem => "rem"@,
            Operation::BitAnd => "bitand"@,
            Operation::BitOr => "bitor"@,
            Operation::BitXor => "bitxor"@,
            Operation::Shl => "shl"@,
            Operation::Shr => "shr"@,
            Operation::Eq => "eq"@,
            Operation::Cmp => "cmp"@,
        }
    }

    /// The operation that `word` names, by exact match.
    pub open spec fn named(word: Seq<char>) -> Option<Operation> {
        if word == "add"@ {
            Some(Operation::Add)
        } else if word == "sub"@ {
            Some(Operation::Sub)
        } else if word == "mul"@ {
            Some(Operation::Mul)
        } else if word == "div"@ {
            Some(Operation::Div)
        } else if word == "rem"@ {
            Some(Operation::Rem)
        } else if word == "bitand"@ {
            Some(Operation::BitAnd)
        } else if word == "bitor"@ {
            Some(Operation::BitOr)
        } else if word == "bitxor"@ {
            Some(Operation::BitXor)
        } else if word == "shl"@ {
            Some(Operation::Shl)
        } else if word == "shr"@ {
            Some(Operation::Shr)
        } else if word == "eq"@ {
            Some(Operation::Eq)
        } else if word == "cmp"@ {
            Some(Operation::Cmp)
        } else {
            None
        }
    }

    /// The family that the operation belongs to.
    pub open spec fn family(self) -> Family {
        match self {
            Operation::Add | Operation::Sub | Operation::Mul | Operation::Div | Operation::Rem =>
                Family::Arithmetic,
            Operation::BitAnd | Operation::BitOr | Operation::BitXor => Family::Bitwise,
            Operation::Shl | Operation::Shr => Family::Shift,
            Operation::Eq | Operation::Cmp => Family::Comparison,
        }
    }

    /// The name of the operation as a string.
    pub fn token(self) -> (word: &'static str)
        ensures
            word@ == self.name(),
    {
        match self {
            Operation::Add => "add",
            Operation::Sub => "sub",
            Operation::Mul => "mul",
            Operation::Div => "div",
            Operation::Rem => "rem",
            Operation::BitAnd => "bitand",
            Operation::BitOr => "bitor",
            Operation::BitXor => "bitxor",
            Operation::Shl => "shl",
            Operation::Shr => "shr",
            Operation::Eq => "eq",
            Operation::Cmp => "cmp",
        }
    }

    /// Finds the operation that `word` names; `None` where it names none.
    pub fn parse(word: &str) -> (found: Option<Operation>)
        ensures
            found == Operation::named(word@),
    {
        let chars = chars_of(word);
        if spells(&chars, "add") {
            Some(Operation::Add)
        } else if spells(&chars, "sub") {
            Some(Operation::Sub)
        } else if spells(&chars, "mul") {
            Some(Operation::Mul)
        } else if spells(&chars, "div") {
            Some(Operation::Div)
        } else if spells(&chars, "rem") {
            Some(Operation::Rem)
        } else if spells(&chars, "bitand") {
            Some(Operation::BitAnd)
        } else if spells(&chars, "bitor") {
            Some(Operation::BitOr)
        } else if spells(&chars, "bitxor") {
            Some(Operation::BitXor)
        } else if spells(&chars, "shl") {
            Some(Operation::Shl)
        } else if spells(&chars, "shr") {
            Some(Operation::Shr)
        } else if spells(&chars, "eq") {
            Some(Operation::Eq)
        } else if spells(&chars, "cmp") {
            Some(Operation::Cmp)
        } else {
            None
        }
    }

    /// The family that the operation belongs to.
    pub fn kind(self) -> (f: Family)
        ensures
            f == self.family(),
    {
        match self {
            Operation::Add | Operation::Sub | Operation::Mul | Operation::Div | Operation::Rem =>
                Family::Arithmetic,
            Operation::BitAnd | Operation::BitOr | Operation::BitXor => Family::Bitwise,
            Operation::Shl | Operation::Shr => Family::Shift,
            Operation::Eq | Operation::Cmp => Family::Comparison,
        }
    }

    /// Every operation is found again by its own name.
    pub proof fn lemma_named_name(self)
        ensures
            Operation::named(self.name()) == Some(self),
    {
        reveal_strlit("add");
        reveal_strlit("sub");
        reveal_strlit("mul");
        reveal_strlit("div");
        reveal_strlit("rem");
        reveal_strlit("bitand");
        reveal_strlit("bitor");
        reveal_strlit("bitxor");
        reveal_strlit("shl");
        reveal_strlit("shr");
        reveal_strlit("eq");
        reveal_strlit("cmp");
        assert("add"@.len() == 3 && "add"@[0] == 'a');
        assert("sub"@.len() == 3 && "sub"@[0] == 's' && "sub"@[1] == 'u');
        assert("mul"@.len() == 3 && "mul"@[0] == 'm');
        assert("div"@.len() == 3 && "div"@[0] == 'd');
        assert("rem"@.len() == 3 && "rem"@[0] == 'r');
        assert("bitand"@.len() == 6 && "bitand"@[3] == 'a');
        assert("bitor"@.len() == 5);
        assert("bitxor"@.len() == 6 && "bitxor"@[3] == 'x');
        assert("shl"@.len() == 3 && "shl"@[0] == 's' && "shl"@[1] == 'h' && "shl"@[2] == 'l');
        assert("shr"@.len() == 3 && "shr"@[0] == 's' && "shr"@[1] == 'h' && "shr"@[2] == 'r');
        assert("eq"@.len() == 2);
        assert("cmp"@.len() == 3 && "cmp"@[0] == 'c');
    }

    /// No name holds a path separator.
    pub proof fn lemma_name_plain(self)
        ensures
            separator_free(self.name()),
    {
        reveal_strlit("add");
        reveal_strlit("sub");
        reveal_strlit("mul");
        reveal_strlit("div");
        reveal_strlit("rem");
        reveal_strlit("bitand");
        reveal_strlit("bitor");
        reveal_strlit("bitxor");
        reveal_strlit("shl");
        reveal_strlit("shr");
        reveal_strlit("eq");
        reveal_strlit("cmp");
    }
}

} // verus!
