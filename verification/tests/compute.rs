use network_math::{Answer, ArithmeticFault, IntegerType, Operation, Order};

fn number(t: IntegerType, op: Operation, l: i128, r: i128) -> i128 {
    match t.evaluate(op, l, r) {
        Ok(Answer::Number(n)) => n,
        other => panic!("{:?}", other),
    }
}

#[test]
fn sums_products_and_quotients() {
    assert_eq!(number(IntegerType::U32, Operation::Add, 6, 7), 13);
    assert_eq!(number(IntegerType::U64, Operation::Mul, 6, 7), 42);
    assert_eq!(number(IntegerType::U32, Operation::Div, 28980, 420), 69);
    assert_eq!(number(IntegerType::U32, Operation::Rem, 28980, 421), 352);
    assert_eq!(number(IntegerType::I32, Operation::Sub, -5, 7), -12);
}

#[test]
fn evaluation_agrees_with_u8() {
    let samples: [u8; 9] = [0, 1, 2, 3, 7, 127, 128, 200, 255];
    for l in samples {
        for r in samples {
            let (wl, wr) = (l as i128, r as i128);
            assert_eq!(number(IntegerType::U8, Operation::Add, wl, wr), l.wrapping_add(r) as i128);
            assert_eq!(number(IntegerType::U8, Operation::Sub, wl, wr), l.wrapping_sub(r) as i128);
            assert_eq!(number(IntegerType::U8, Operation::Mul, wl, wr), l.wrapping_mul(r) as i128);
            assert_eq!(number(IntegerType::U8, Operation::BitAnd, wl, wr), (l & r) as i128);
            assert_eq!(number(IntegerType::U8, Operation::BitOr, wl, wr), (l | r) as i128);
            assert_eq!(number(IntegerType::U8, Operation::BitXor, wl, wr), (l ^ r) as i128);
            assert_eq!(number(IntegerType::U8, Operation::Shl, wl, wr), l.wrapping_shl(r as u32) as i128);
            assert_eq!(number(IntegerType::U8, Operation::Shr, wl, wr), l.wrapping_shr(r as u32) as i128);
            match l.checked_div(r) {
                Some(q) => assert_eq!(number(IntegerType::U8, Operation::Div, wl, wr), q as i128),
                None => assert_eq!(
                    IntegerType::U8.evaluate(Operation::Div, wl, wr),
                    Err(ArithmeticFault::ZeroDivisor)
                ),
            }
        }
    }
}

#[test]
fn evaluation_agrees_with_i64() {
    let samples: [i64; 11] = [i64::MIN, i64::MIN + 1, -4294967297, -3, -1, 0, 1, 2, 63, 4294967296, i64::MAX];
    for l in samples {
        for r in samples {
            let (wl, wr) = (l as i128, r as i128);
            assert_eq!(number(IntegerType::I64, Operation::Add, wl, wr), l.wrapping_add(r) as i128);
            assert_eq!(number(IntegerType::I64, Operation::Sub, wl, wr), l.wrapping_sub(r) as i128);
            assert_eq!(number(IntegerType::I64, Operation::Mul, wl, wr), l.wrapping_mul(r) as i128);
            assert_eq!(number(IntegerType::I64, Operation::BitAnd, wl, wr), (l & r) as i128);
            assert_eq!(number(IntegerType::I64, Operation::BitOr, wl, wr), (l | r) as i128);
            assert_eq!(number(IntegerType::I64, Operation::BitXor, wl, wr), (l ^ r) as i128);
            assert_eq!(number(IntegerType::I64, Operation::Shl, wl, wr), l.wrapping_shl(r as u32) as i128);
            assert_eq!(number(IntegerType::I64, Operation::Shr, wl, wr), l.wrapping_shr(r as u32) as i128);
            match (l.checked_div(r), l.checked_rem(r)) {
                (Some(q), Some(m)) => {
                    assert_eq!(number(IntegerType::I64, Operation::Div, wl, wr), q as i128);
                    assert_eq!(number(IntegerType::I64, Operation::Rem, wl, wr), m as i128);
                }
                _ => {
                    let fault = if r == 0 { ArithmeticFault::ZeroDivisor } else { ArithmeticFault::Overflow };
                    assert_eq!(IntegerType::I64.evaluate(Operation::Div, wl, wr), Err(fault));
                    assert_eq!(IntegerType::I64.evaluate(Operation::Rem, wl, wr), Err(fault));
                }
            }
        }
    }
}

#[test]
fn evaluation_agrees_with_u64_and_i16() {
    let samples: [u64; 7] = [0, 1, 3, 4294967295, 4294967296, u64::MAX - 1, u64::MAX];
    for l in samples {
        for r in samples {
            let (wl, wr) = (l as i128, r as i128);
            assert_eq!(number(IntegerType::U64, Operation::Add, wl, wr), l.wrapping_add(r) as i128);
            assert_eq!(number(IntegerType::U64, Operation::Sub, wl, wr), l.wrapping_sub(r) as i128);
            assert_eq!(number(IntegerType::U64, Operation::Mul, wl, wr), l.wrapping_mul(r) as i128);
            assert_eq!(number(IntegerType::U64, Operation::Shl, wl, wr), l.wrapping_shl(r as u32) as i128);
            assert_eq!(number(IntegerType::U64, Operation::Shr, wl, wr), l.wrapping_shr(r as u32) as i128);
        }
    }
    let samples: [i16; 7] = [i16::MIN, -255, -1, 0, 1, 256, i16::MAX];
    for l in samples {
        for r in samples {
            let (wl, wr) = (l as i128, r as i128);
            assert_eq!(number(IntegerType::I16, Operation::Add, wl, wr), l.wrapping_add(r) as i128);
            assert_eq!(number(IntegerType::I16, Operation::Mul, wl, wr), l.wrapping_mul(r) as i128);
            assert_eq!(number(IntegerType::I16, Operation::Shl, wl, wr), l.wrapping_shl(r as u32) as i128);
            assert_eq!(number(IntegerType::I16, Operation::Shr, wl, wr), l.wrapping_shr(r as u32) as i128);
        }
    }
}

#[test]
fn shift_distances() {
    assert_eq!(IntegerType::U8.distance(3), 3);
    assert_eq!(IntegerType::U8.distance(8), 0);
    assert_eq!(IntegerType::U8.distance(-1), 7);
    assert_eq!(IntegerType::I64.distance(64), 0);
    assert_eq!(IntegerType::I64.distance(-9223372036854775808), 0);
    assert_eq!(IntegerType::U32.distance(18446744073709551615), 31);
}

#[test]
fn equality_and_order() {
    assert_eq!(IntegerType::I32.evaluate(Operation::Eq, 5, 5), Ok(Answer::Truth(true)));
    assert_eq!(IntegerType::I32.evaluate(Operation::Eq, 5, 6), Ok(Answer::Truth(false)));
    assert_eq!(IntegerType::U32.evaluate(Operation::Cmp, 5, 5), Ok(Answer::Order(Some(Order::Equal))));
    assert_eq!(IntegerType::I8.evaluate(Operation::Cmp, -5, 5), Ok(Answer::Order(Some(Order::Less))));
    assert_eq!(IntegerType::I8.evaluate(Operation::Cmp, 5, -5), Ok(Answer::Order(Some(Order::Greater))));
}

#[test]
fn faults() {
    assert_eq!(IntegerType::U32.evaluate(Operation::Div, 1, 0), Err(ArithmeticFault::ZeroDivisor));
    assert_eq!(IntegerType::U32.evaluate(Operation::Rem, 1, 0), Err(ArithmeticFault::ZeroDivisor));
    assert_eq!(IntegerType::I8.evaluate(Operation::Div, -128, -1), Err(ArithmeticFault::Overflow));
    assert_eq!(IntegerType::I8.evaluate(Operation::Rem, -128, -1), Err(ArithmeticFault::Overflow));
    assert_eq!(IntegerType::I8.evaluate(Operation::Div, -128, 0), Err(ArithmeticFault::ZeroDivisor));
}

#[test]
fn bodies_of_answers() {
    assert_eq!(Answer::Number(-13).text(), "-13");
    assert_eq!(Answer::<i128>::Truth(true).text(), "true");
    assert_eq!(Answer::<i128>::Order(None).text(), "none");
    assert_eq!(Answer::<i128>::Order(Some(Order::Greater)).text(), "greater");
}
