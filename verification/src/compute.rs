//! The operations themselves, on integers of the eight fixed-width kinds. An
//! integer of any kind is held in an `i128`, which has room for all of them.

use crate::kinds::{IntegerType, Operation};
use vstd::arithmetic::div_mod::{
    lemma_fundamental_div_mod, lemma_fundamental_div_mod_converse, lemma_mod_bound,
    lemma_mod_multiples_basic, lemma_small_mod,
};
use vstd::arithmetic::power2::{
    lemma2_to64, lemma2_to64_rest, lemma_pow2_pos, lemma_pow2_strictly_increases,
    lemma_pow2_unfold, pow2,
};
use vstd::prelude::*;

verus! {

/// How two ordered values stand to each other.
#[derive(Clone, Copy, Debug, PartialEq, Eq, Structural)]
pub enum Order {
    Less,
    Equal,
    Greater,
}

/// What an operation yields: a number of the operand type for the arithmetic,
/// bitwise and shift families, a truth value for equality, and for ordering the
/// order of the operands, or `None` where they are unordered.
#[derive(Clone, Copy, Debug, PartialEq, Eq)]
pub enum Answer<N> {
    Number(N),
    Truth(bool),
    Order(Option<Order>),
}

impl View for Answer<i128> {
    type V = Answer<int>;

    open spec fn view(&self) -> Answer<int> {
        match *self {
            Answer::Number(n) => Answer::Number(n as int),
            Answer::Truth(b) => Answer::Truth(b),
            Answer::Order(o) => Answer::Order(o),
        }
    }
}

/// The condition under which an operation on integers has no result.
#[derive(Clone, Copy, Debug, PartialEq, Eq, Structural)]
pub enum ArithmeticFault {
    /// The divisor of a division or remainder is zero.
    ZeroDivisor,
    /// The least value of a signed type is divided by minus one: the quotient is
    /// not a value of the type.
    Overflow,
}

/// The distance of `v` from zero.
pub open spec fn magnitude(v: int) -> int {
    if v < 0 {
        -v
    } else {
        v
    }
}

/// The quotient of `l` by `r`, rounded toward zero.
pub open spec fn quotient(l: int, r: int) -> int {
    let q = magnitude(l) / magnitude(r);
    if (l < 0) != (r < 0) {
        -q
    } else {
        q
    }
}

/// What is left of `l` after taking out `r` as often as `quotient` says: it has
/// the sign of `l`.
pub open spec fn remainder(l: int, r: int) -> int {
    let m = magnitude(l) % magnitude(r);
    if l < 0 {
        -m
    } else {
        m
    }
}

/// The bits that `l` and `r` share, both read in two's complement.
pub open spec fn bit_and(l: int, r: int) -> int {
    ((l as i128) & (r as i128)) as int
}

/// The bits that `l` or `r` has, both read in two's complement.
pub open spec fn bit_or(l: int, r: int) -> int {
    ((l as i128) | (r as i128)) as int
}

/// The bits that exactly one of `l` and `r` has, both read in two's complement.
pub open spec fn bit_xor(l: int, r: int) -> int {
    ((l as i128) ^ (r as i128)) as int
}

/// How `l` stands to `r`.
pub open spec fn order(l: int, r: int) -> Order {
    if l < r {
        Order::Less
    } else if l == r {
        Order::Equal
    } else {
        Order::Greater
    }
}

impl IntegerType {
    /// The value of the type that differs from `v` by a multiple of the type's
    /// modulus: what is left of `v` when the bits above the width are dropped.
    pub open spec fn wrap(self, v: int) -> int {
        let low = v % self.modulus();
        if low > self.max_value() {
            low - self.modulus()
        } else {
            low
        }
    }

    /// By how many bits a value of the type is shifted when the amount given is
    /// `amount`: only as many low bits of the amount count as address a bit of
    /// the type.
    pub open spec fn shift_distance(self, amount: int) -> nat {
        (amount % (self.bits() as int)) as nat
    }

    /// Whether dividing `l` by `r` in this type has no result, and why.
    pub open spec fn division_fault(self, l: int, r: int) -> Option<ArithmeticFault> {
        if r == 0 {
            Some(ArithmeticFault::ZeroDivisor)
        } else if self.is_signed() && l == self.min_value() && r == -1 {
            Some(ArithmeticFault::Overflow)
        } else {
            None
        }
    }

    /// Whether `amount` can be the right-hand operand of a shift: it is a value of
    /// one of the integer types.
    pub open spec fn is_amount(amount: int) -> bool {
        IntegerType::I64.min_value() <= amount <= IntegerType::U64.max_value()
    }

    /// What `op` yields for the operands `l` and `r` of this type; for a shift, `r`
    /// is the amount. Sums, differences, products and left shifts wrap round.
    pub open spec fn answer(self, op: Operation, l: int, r: int) -> Result<
        Answer<int>,
        ArithmeticFault,
    > {
        match op {
            Operation::Add => Ok(Answer::Number(self.wrap(l + r))),
            Operation::Sub => Ok(Answer::Number(self.wrap(l - r))),
            Operation::Mul => Ok(Answer::Number(self.wrap(l * r))),
            Operation::Div => match self.division_fault(l, r) {
                Some(fault) => Err(fault),
                None => Ok(Answer::Number(quotient(l, r))),
            },
            Operation::Rem => match self.division_fault(l, r) {
                Some(fault) => Err(fault),
                None => Ok(Answer::Number(remainder(l, r))),
            },
            Operation::BitAnd => Ok(Answer::Number(bit_and(l, r))),
            Operation::BitOr => Ok(Answer::Number(bit_or(l, r))),
            Operation::BitXor => Ok(Answer::Number(bit_xor(l, r))),
            Operation::Shl => Ok(Answer::Number(self.wrap(l * pow2(self.shift_distance(r))))),
            Operation::Shr => Ok(Answer::Number(l / (pow2(self.shift_distance(r)) as int))),
            Operation::Eq => Ok(Answer::Truth(l == r)),
            Operation::Cmp => Ok(Answer::Order(Some(order(l, r)))),
        }
    }
}

/// The modulus of a type is two to the power of its width.
pub proof fn lemma_modulus(t: IntegerType)
    ensures
        t.modulus() == pow2(t.bits()),
{
    lemma2_to64();
}

/// What `wrap` is: its result is a value of the type, it differs from its
/// argument by a multiple of the modulus, and it leaves a value of the type as it
/// is.
pub proof fn lemma_wrap(t: IntegerType, v: int)
    ensures
        t.holds(t.wrap(v)),
        (t.wrap(v) - v) % t.modulus() == 0,
        t.holds(v) ==> t.wrap(v) == v,
{
    let m = t.modulus();
    let q = v / m;
    lemma_mod_bound(v, m);
    lemma_fundamental_div_mod(v, m);
    lemma_mod_multiples_basic(-q, m);
    lemma_mod_multiples_basic(-q - 1, m);
    assert(v % m - v == (-q) * m) by (nonlinear_arith)
        requires
            v == m * q + v % m,
    ;
    assert(v % m - m - v == (-q - 1) * m) by (nonlinear_arith)
        requires
            v == m * q + v % m,
    ;
    if t.holds(v) {
        if v >= 0 {
            lemma_small_mod(v as nat, m as nat);
        } else {
            lemma_fundamental_div_mod_converse(v, m, -1, v + m);
        }
    }
}

/// What `quotient` and `remainder` are: together they give the dividend back,
/// the remainder is nearer to zero than the divisor, and it is never of the sign
/// opposite to the dividend's.
pub proof fn lemma_division(l: int, r: int)
    requires
        r != 0,
    ensures
        l == r * quotient(l, r) + remainder(l, r),
        magnitude(remainder(l, r)) < magnitude(r),
        magnitude(quotient(l, r)) <= magnitude(l),
        l >= 0 ==> remainder(l, r) >= 0,
        l <= 0 ==> remainder(l, r) <= 0,
{
    let a = magnitude(l);
    let b = magnitude(r);
    lemma_fundamental_div_mod(a, b);
    lemma_mod_bound(a, b);
    let q = a / b;
    let m = a % b;
    assert(0 <= q <= a) by (nonlinear_arith)
        requires
            a >= 0,
            b >= 1,
            a == b * q + m,
            0 <= m < b,
    ;
    assert(l == r * quotient(l, r) + remainder(l, r)) by (nonlinear_arith)
        requires
            a == b * q + m,
            a == magnitude(l),
            b == magnitude(r),
            quotient(l, r) == (if (l < 0) != (r < 0) {
                -q
            } else {
                q
            }),
            remainder(l, r) == (if l < 0 {
                -m
            } else {
                m
            }),
    ;
}

/// The quotient and the remainder of two values of a type are values of the
/// type, but for the one division that overflows.
pub proof fn lemma_division_holds(t: IntegerType, l: int, r: int)
    requires
        t.holds(l),
        t.holds(r),
        t.division_fault(l, r) is None,
    ensures
        t.holds(quotient(l, r)),
        t.holds(remainder(l, r)),
{
    lemma_division(l, r);
    let a = magnitude(l);
    let b = magnitude(r);
    if t.is_signed() && l == t.min_value() && b >= 2 {
        lemma_fundamental_div_mod(a, b);
        lemma_mod_bound(a, b);
        assert(2 * (a / b) <= a) by (nonlinear_arith)
            requires
                a >= 0,
                b >= 2,
                a == b * (a / b) + a % b,
                0 <= a % b < b,
        ;
    }
}

/// A value of a type divided by a positive number, rounding down, is a value of
/// the type.
pub proof fn lemma_floor_holds(t: IntegerType, l: int, p: int)
    requires
        t.holds(l),
        p >= 1,
    ensures
        t.holds(l / p),
{
    lemma_fundamental_div_mod(l, p);
    lemma_mod_bound(l, p);
    if l >= 0 {
        assert(0 <= l / p <= l) by (nonlinear_arith)
            requires
                l >= 0,
                p >= 1,
                l == p * (l / p) + l % p,
                0 <= l % p < p,
        ;
    } else {
        assert(l <= l / p <= 0) by (nonlinear_arith)
            requires
                l < 0,
                p >= 1,
                l == p * (l / p) + l % p,
                0 <= l % p < p,
        ;
    }
}

/// The results of the bitwise operations stay within the type of the operands.
pub proof fn lemma_bitwise_holds(t: IntegerType, l: int, r: int)
    requires
        t.holds(l),
        t.holds(r),
    ensures
        t.holds(bit_and(l, r)),
        t.holds(bit_or(l, r)),
        t.holds(bit_xor(l, r)),
{
    lemma_bitwise_in_range(t, l as i128, r as i128);
}

/// Every number that an operation yields is a value of the operand type.
pub proof fn lemma_answer_holds(t: IntegerType, op: Operation, l: int, r: int)
    requires
        t.holds(l),
        op.family() is Shift ==> IntegerType::is_amount(r),
        !(op.family() is Shift) ==> t.holds(r),
    ensures
        t.answer(op, l, r) matches Ok(Answer::Number(n)) ==> t.holds(n),
{
    match op {
        Operation::Add => lemma_wrap(t, l + r),
        Operation::Sub => lemma_wrap(t, l - r),
        Operation::Mul => lemma_wrap(t, l * r),
        Operation::Div | Operation::Rem => {
            if t.division_fault(l, r) is None {
                lemma_division_holds(t, l, r);
            }
        },
        Operation::BitAnd | Operation::BitOr | Operation::BitXor => lemma_bitwise_holds(t, l, r),
        Operation::Shl => lemma_wrap(t, l * pow2(t.shift_distance(r))),
        Operation::Shr => {
            lemma_pow2_pos(t.shift_distance(r));
            lemma_floor_holds(t, l, pow2(t.shift_distance(r)) as int);
        },
        Operation::Eq | Operation::Cmp => {},
    }
}

/// `v` modulo `m`, the result never negative.
fn modulo(v: i128, m: i128) -> (low: i128)
    requires
        m > 0,
        v > i128::MIN,
    ensures
        low == (v as int) % (m as int),
        0 <= low < m,
{
    proof {
        lemma_mod_bound(v as int, m as int);
    }
    if v >= 0 {
        v % m
    } else {
        let back = (-v) % m;
        proof {
            let a = -(v as int);
            let q = a / (m as int);
            lemma_fundamental_div_mod(a, m as int);
            if back == 0 {
                assert(v as int == (-q) * m + 0) by (nonlinear_arith)
                    requires
                        a == m * q + 0,
                        v as int == -a,
                ;
                lemma_fundamental_div_mod_converse(v as int, m as int, -q, 0);
            } else {
                assert(v as int == (-q - 1) * m + (m - back)) by (nonlinear_arith)
                    requires
                        a == m * q + back,
                        v as int == -a,
                ;
                lemma_fundamental_div_mod_converse(v as int, m as int, -q - 1, m - back);
            }
        }
        if back == 0 {
            0
        } else {
            m - back
        }
    }
}

/// Takes `v` into the range of `t`.
fn wrapped(t: IntegerType, v: i128) -> (r: i128)
    requires
        v > i128::MIN,
    ensures
        r == t.wrap(v as int),
        t.holds(r as int),
{
    let m = t.cardinality();
    let low = modulo(v, m);
    proof {
        lemma_wrap(t, v as int);
    }
    if low > t.highest() {
        low - m
    } else {
        low
    }
}

/// Two to the power of `k`.
fn power_of_two(k: u32) -> (p: i128)
    requires
        k < 64,
    ensures
        p == pow2(k as nat),
        1 <= p <= 0x8000_0000_0000_0000,
{
    let mut p: i128 = 1;
    let mut i: u32 = 0;
    proof {
        lemma2_to64();
        lemma2_to64_rest();
    }
    while i < k
        invariant
            i <= k < 64,
            p == pow2(i as nat),
            pow2(63) == 0x8000_0000_0000_0000,
        decreases k - i,
    {
        proof {
            lemma_pow2_strictly_increases(i as nat, 63);
            lemma_pow2_unfold((i + 1) as nat);
        }
        p = p * 2;
        i += 1;
    }
    proof {
        lemma_pow2_pos(k as nat);
        if k < 63 {
            lemma_pow2_strictly_increases(k as nat, 63);
        }
    }
    p
}

/// `l` divided by the positive `p`, rounded down.
fn floor_quotient(l: i128, p: i128) -> (q: i128)
    requires
        p > 0,
        l > i128::MIN,
    ensures
        q == (l as int) / (p as int),
{
    if l >= 0 {
        l / p
    } else {
        let below = (-l - 1) / p;
        proof {
            let a = -(l as int) - 1;
            lemma_fundamental_div_mod(a, p as int);
            lemma_mod_bound(a, p as int);
            let rest = a % (p as int);
            assert(l as int == (-below - 1) * p + (p - 1 - rest)) by (nonlinear_arith)
                requires
                    a == p * below + rest,
                    l as int == -a - 1,
            ;
            lemma_fundamental_div_mod_converse(l as int, p as int, -below - 1, p - 1 - rest);
        }
        -below - 1
    }
}

/// The results of the bitwise operations stay within the type of the operands.
proof fn lemma_bitwise_in_range(t: IntegerType, l: i128, r: i128)
    requires
        t.holds(l as int),
        t.holds(r as int),
    ensures
        t.holds((l & r) as int),
        t.holds((l | r) as int),
        t.holds((l ^ r) as int),
{
    match t {
        IntegerType::U8 => {
            assert(0 <= (l & r) <= 0xff && 0 <= (l | r) <= 0xff && 0 <= (l ^ r) <= 0xff)
                by (bit_vector)
                requires
                    0 <= l <= 0xff,
                    0 <= r <= 0xff,
            ;
        },
        IntegerType::U16 => {
            assert(0 <= (l & r) <= 0xffff && 0 <= (l | r) <= 0xffff && 0 <= (l ^ r) <= 0xffff)
                by (bit_vector)
                requires
                    0 <= l <= 0xffff,
                    0 <= r <= 0xffff,
            ;
        },
        IntegerType::U32 => {
            assert(0 <= (l & r) <= 0xffff_ffff && 0 <= (l | r) <= 0xffff_ffff && 0 <= (l ^ r)
                <= 0xffff_ffff) by (bit_vector)
                requires
                    0 <= l <= 0xffff_ffff,
                    0 <= r <= 0xffff_ffff,
            ;
        },
        IntegerType::U64 => {
            assert(0 <= (l & r) <= 0xffff_ffff_ffff_ffff && 0 <= (l | r) <= 0xffff_ffff_ffff_ffff
                && 0 <= (l ^ r) <= 0xffff_ffff_ffff_ffff) by (bit_vector)
                requires
                    0 <= l <= 0xffff_ffff_ffff_ffff,
                    0 <= r <= 0xffff_ffff_ffff_ffff,
            ;
        },
        IntegerType::I8 => {
            assert(-0x80 <= (l & r) <= 0x7f && -0x80 <= (l | r) <= 0x7f && -0x80 <= (l ^ r)
                <= 0x7f) by (bit_vector)
                requires
                    -0x80 <= l <= 0x7f,
                    -0x80 <= r <= 0x7f,
            ;
        },
        IntegerType::I16 => {
            assert(-0x8000 <= (l & r) <= 0x7fff && -0x8000 <= (l | r) <= 0x7fff && -0x8000 <= (l
                ^ r) <= 0x7fff) by (bit_vector)
                requires
                    -0x8000 <= l <= 0x7fff,
                    -0x8000 <= r <= 0x7fff,
            ;
        },
        IntegerType::I32 => {
            assert(-0x8000_0000 <= (l & r) <= 0x7fff_ffff && -0x8000_0000 <= (l | r)
                <= 0x7fff_ffff && -0x8000_0000 <= (l ^ r) <= 0x7fff_ffff) by (bit_vector)
                requires
                    -0x8000_0000 <= l <= 0x7fff_ffff,
                    -0x8000_0000 <= r <= 0x7fff_ffff,
            ;
        },
        IntegerType::I64 => {
            assert(-0x8000_0000_0000_0000 <= (l & r) <= 0x7fff_ffff_ffff_ffff
                && -0x8000_0000_0000_0000 <= (l | r) <= 0x7fff_ffff_ffff_ffff
                && -0x8000_0000_0000_0000 <= (l ^ r) <= 0x7fff_ffff_ffff_ffff) by (bit_vector)
                requires
                    -0x8000_0000_0000_0000 <= l <= 0x7fff_ffff_ffff_ffff,
                    -0x8000_0000_0000_0000 <= r <= 0x7fff_ffff_ffff_ffff,
            ;
        },
    }
}

/// The product of two values of `t`, taken into the range of `t`.
fn product(t: IntegerType, l: i128, r: i128) -> (p: i128)
    requires
        t.holds(l as int),
        t.holds(r as int),
    ensures
        p == t.wrap(l * r),
        t.holds(p as int),
{
    if t.signed() {
        assert(-0x4000_0000_0000_0000_0000_0000_0000_0000 <= l * r
            <= 0x4000_0000_0000_0000_0000_0000_0000_0000) by (nonlinear_arith)
            requires
                -0x8000_0000_0000_0000 <= l <= 0x7fff_ffff_ffff_ffff,
                -0x8000_0000_0000_0000 <= r <= 0x7fff_ffff_ffff_ffff,
        ;
        wrapped(t, l * r)
    } else {
        assert(0 <= l * r <= 0xffff_ffff_ffff_fffe_0000_0000_0000_0001) by (nonlinear_arith)
            requires
                0 <= l <= 0xffff_ffff_ffff_ffff,
                0 <= r <= 0xffff_ffff_ffff_ffff,
        ;
        let wide: u128 = (l as u128) * (r as u128);
        let low: u128 = wide % (t.cardinality() as u128);
        low as i128
    }
}

/// `l` shifted left by `k` bits, taken into the range of `t`.
fn shifted_left(t: IntegerType, l: i128, k: u32) -> (r: i128)
    requires
        t.holds(l as int),
        k < 64,
    ensures
        r == t.wrap(l * pow2(k as nat)),
        t.holds(r as int),
{
    let p = power_of_two(k);
    assert(-0x4000_0000_0000_0000_0000_0000_0000_0000 <= l * p
        <= 0x7fff_ffff_ffff_ffff_8000_0000_0000_0000) by (nonlinear_arith)
        requires
            -0x8000_0000_0000_0000 <= l <= 0xffff_ffff_ffff_ffff,
            1 <= p <= 0x8000_0000_0000_0000,
    ;
    wrapped(t, l * p)
}

/// `l` shifted right by `k` bits: halved `k` times, rounding down each time.
fn shifted_right(t: IntegerType, l: i128, k: u32) -> (r: i128)
    requires
        t.holds(l as int),
        k < 64,
    ensures
        r == (l as int) / (pow2(k as nat) as int),
        t.holds(r as int),
{
    let p = power_of_two(k);
    proof {
        lemma_floor_holds(t, l as int, p as int);
    }
    floor_quotient(l, p)
}

/// The quotient and the remainder of `l` by `r`, the quotient rounded toward zero.
fn divided(t: IntegerType, l: i128, r: i128) -> (pair: (i128, i128))
    requires
        t.holds(l as int),
        t.holds(r as int),
        t.division_fault(l as int, r as int) is None,
    ensures
        pair.0 == quotient(l as int, r as int),
        pair.1 == remainder(l as int, r as int),
        t.holds(pair.0 as int),
        t.holds(pair.1 as int),
{
    let a: i128 = if l < 0 {
        -l
    } else {
        l
    };
    let b: i128 = if r < 0 {
        -r
    } else {
        r
    };
    proof {
        lemma_division(l as int, r as int);
        lemma_division_holds(t, l as int, r as int);
    }
    let q = a / b;
    let m = a % b;
    let quotient = if (l < 0) != (r < 0) {
        -q
    } else {
        q
    };
    let remainder = if l < 0 {
        -m
    } else {
        m
    };
    (quotient, remainder)
}

impl IntegerType {
    /// By how many bits the amount `amount` shifts a value of this type.
    pub fn distance(self, amount: i128) -> (k: u32)
        requires
            IntegerType::is_amount(amount as int),
        ensures
            k == self.shift_distance(amount as int),
            k < self.bits(),
    {
        let k = modulo(amount, self.width() as i128);
        k as u32
    }

    /// Carries out `op` on the operands `lhs` and `rhs` of this type; for a shift,
    /// `rhs` is the amount, a value of any integer type. The result is the answer,
    /// or the reason why there is none.
    pub fn evaluate(self, op: Operation, lhs: i128, rhs: i128) -> (result: Result<
        Answer<i128>,
        ArithmeticFault,
    >)
        requires
            self.holds(lhs as int),
            op.family() is Shift ==> IntegerType::is_amount(rhs as int),
            !(op.family() is Shift) ==> self.holds(rhs as int),
        ensures
            match result {
                Ok(answer) => self.answer(op, lhs as int, rhs as int) == Ok::<
                    Answer<int>,
                    ArithmeticFault,
                >(answer@),
                Err(fault) => self.answer(op, lhs as int, rhs as int) == Err::<
                    Answer<int>,
                    ArithmeticFault,
                >(fault),
            },
            result matches Ok(Answer::Number(n)) ==> self.holds(n as int),
    {
        match op {
            Operation::Add => Ok(Answer::Number(wrapped(self, lhs + rhs))),
            Operation::Sub => Ok(Answer::Number(wrapped(self, lhs - rhs))),
            Operation::Mul => Ok(Answer::Number(product(self, lhs, rhs))),
            Operation::Div | Operation::Rem => {
                if rhs == 0 {
                    Err(ArithmeticFault::ZeroDivisor)
                } else if self.signed() && lhs == self.lowest() && rhs == -1 {
                    Err(ArithmeticFault::Overflow)
                } else {
                    let (quotient, remainder) = divided(self, lhs, rhs);
                    match op {
                        Operation::Div => Ok(Answer::Number(quotient)),
                        _ => Ok(Answer::Number(remainder)),
                    }
                }
            },
            Operation::BitAnd => {
                proof {
                    lemma_bitwise_in_range(self, lhs, rhs);
                }
                Ok(Answer::Number(lhs & rhs))
            },
            Operation::BitOr => {
                proof {
                    lemma_bitwise_in_range(self, lhs, rhs);
                }
                Ok(Answer::Number(lhs | rhs))
            },
            Operation::BitXor => {
                proof {
                    lemma_bitwise_in_range(self, lhs, rhs);
                }
                Ok(Answer::Number(lhs ^ rhs))
            },
            Operation::Shl => Ok(Answer::Number(shifted_left(self, lhs, self.distance(rhs)))),
            Operation::Shr => Ok(Answer::Number(shifted_right(self, lhs, self.distance(rhs)))),
            Operation::Eq => Ok(Answer::Truth(lhs == rhs)),
            Operation::Cmp => Ok(
                Answer::Order(
                    Some(
                        if lhs < rhs {
                            Order::Less
                        } else if lhs == rhs {
                            Order::Equal
                        } else {
                            Order::Greater
                        },
                    ),
                ),
            ),
        }
    }
}

} // verus!
