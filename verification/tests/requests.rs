use network_math::text::{join_path, split_path};
use network_math::{Family, IntegerType, OperandType, Operation, Request, RequestError};

const OPERATIONS: [Operation; 12] = [
    Operation::Add,
    Operation::Sub,
    Operation::Mul,
    Operation::Div,
    Operation::Rem,
    Operation::BitAnd,
    Operation::BitOr,
    Operation::BitXor,
    Operation::Shl,
    Operation::Shr,
    Operation::Eq,
    Operation::Cmp,
];

const INTEGERS: [IntegerType; 8] = [
    IntegerType::U8,
    IntegerType::U16,
    IntegerType::U32,
    IntegerType::U64,
    IntegerType::I8,
    IntegerType::I16,
    IntegerType::I32,
    IntegerType::I64,
];

fn operand_types() -> Vec<OperandType> {
    let mut all: Vec<OperandType> = INTEGERS.iter().map(|t| OperandType::Int(*t)).collect();
    all.push(OperandType::F32);
    all.push(OperandType::F64);
    all
}

fn strings(words: &[&str]) -> Vec<String> {
    words.iter().map(|w| w.to_string()).collect()
}

#[test]
fn names_on_the_wire() {
    let names: Vec<&str> = OPERATIONS.iter().map(|op| op.token()).collect();
    assert_eq!(
        names,
        ["add", "sub", "mul", "div", "rem", "bitand", "bitor", "bitxor", "shl", "shr", "eq", "cmp"]
    );
    let names: Vec<&str> = operand_types().iter().map(|t| t.token()).collect();
    assert_eq!(names, ["u8", "u16", "u32", "u64", "i8", "i16", "i32", "i64", "f32", "f64"]);
}

#[test]
fn names_are_found_again() {
    for op in OPERATIONS {
        assert_eq!(Operation::parse(op.token()), Some(op));
    }
    for t in operand_types() {
        assert_eq!(OperandType::parse(t.token()), Some(t));
    }
    for t in INTEGERS {
        assert_eq!(IntegerType::parse(t.token()), Some(t));
    }
}

#[test]
fn names_match_exactly() {
    assert_eq!(Operation::parse("Add"), None);
    assert_eq!(Operation::parse("add "), None);
    assert_eq!(Operation::parse("ad"), None);
    assert_eq!(Operation::parse(""), None);
    assert_eq!(Operation::parse("bit"), None);
    assert_eq!(OperandType::parse("u"), None);
    assert_eq!(OperandType::parse("u80"), None);
    assert_eq!(OperandType::parse("F32"), None);
    assert_eq!(OperandType::parse("i128"), None);
    assert_eq!(IntegerType::parse("f32"), None);
    assert_eq!(IntegerType::parse("usize"), None);
}

#[test]
fn families_of_the_operations() {
    let families: Vec<Family> = OPERATIONS.iter().map(|op| op.kind()).collect();
    assert_eq!(
        families,
        [
            Family::Arithmetic,
            Family::Arithmetic,
            Family::Arithmetic,
            Family::Arithmetic,
            Family::Arithmetic,
            Family::Bitwise,
            Family::Bitwise,
            Family::Bitwise,
            Family::Shift,
            Family::Shift,
            Family::Comparison,
            Family::Comparison,
        ]
    );
    assert_eq!(Family::Arithmetic.segments(), 4);
    assert_eq!(Family::Bitwise.segments(), 4);
    assert_eq!(Family::Shift.segments(), 5);
    assert_eq!(Family::Comparison.segments(), 4);
}

#[test]
fn types_that_the_families_take() {
    for t in operand_types() {
        let integer = t.integer().is_some();
        assert!(Family::Arithmetic.takes(t));
        assert!(Family::Comparison.takes(t));
        assert_eq!(Family::Bitwise.takes(t), integer);
        assert_eq!(Family::Shift.takes(t), integer);
    }
    assert_eq!(OperandType::F32.integer(), None);
    assert_eq!(OperandType::Int(IntegerType::I16).integer(), Some(IntegerType::I16));
}

#[test]
fn a_path_falls_apart_at_its_separators() {
    assert_eq!(split_path("add/u8/1/2"), ["add", "u8", "1", "2"]);
    assert_eq!(split_path(""), [""]);
    assert_eq!(split_path("/"), ["", ""]);
    assert_eq!(split_path("a//b"), ["a", "", "b"]);
    assert_eq!(split_path("a/b/"), ["a", "b", ""]);
    assert_eq!(split_path("/a"), ["", "a"]);
    assert_eq!(split_path("\u{e9}t\u{e9}/\u{4e2d}"), ["\u{e9}t\u{e9}", "\u{4e2d}"]);
}

#[test]
fn segments_are_joined_by_separators() {
    assert_eq!(join_path(&strings(&["add", "u8", "1", "2"])), "add/u8/1/2");
    assert_eq!(join_path(&strings(&[])), "");
    assert_eq!(join_path(&strings(&["a"])), "a");
    assert_eq!(join_path(&strings(&["", ""])), "/");
    assert_eq!(join_path(&strings(&["", "a", ""])), "/a/");
}

#[test]
fn splitting_undoes_joining() {
    for words in [vec!["add", "u8", "1", "2"], vec![""], vec!["", "", ""], vec!["x"], vec!["\u{e9}", "", "b"]] {
        let segments = strings(&words);
        assert_eq!(split_path(&join_path(&segments)), segments);
    }
    for path in ["", "/", "a/b", "//a//", "shl/u8/u8/1/3"] {
        assert_eq!(join_path(&split_path(path)), path);
    }
}

#[test]
fn decoding_a_request() {
    let request = Request::parse("add/u32/6/7").unwrap();
    assert_eq!(request.operation(), Operation::Add);
    assert_eq!(request.operand_type(), OperandType::Int(IntegerType::U32));
    assert_eq!(request.shift_type(), None);
    assert_eq!(request.lhs(), "6");
    assert_eq!(request.rhs(), "7");
    let request = Request::parse("shr/i16/u8/16/2").unwrap();
    assert_eq!(request.operation(), Operation::Shr);
    assert_eq!(request.operand_type(), OperandType::Int(IntegerType::I16));
    assert_eq!(request.shift_type(), Some(IntegerType::U8));
    assert_eq!(request.lhs(), "16");
    assert_eq!(request.rhs(), "2");
}

#[test]
fn decoding_does_not_read_the_operands() {
    let request = Request::parse("eq/u8/one/").unwrap();
    assert_eq!(request.lhs(), "one");
    assert_eq!(request.rhs(), "");
}

#[test]
fn errors_of_decoding() {
    assert_eq!(Request::decode(&Vec::new()), Err(RequestError::Malformed { op: None }));
    assert_eq!(Request::parse("add/u8/1"), Err(RequestError::Malformed { op: Some(Operation::Add) }));
    assert_eq!(Request::parse("shl/u8/1/2"), Err(RequestError::Malformed { op: Some(Operation::Shl) }));
    assert_eq!(Request::parse("nop/u8/1/2"), Err(RequestError::InvalidOperation { token: "nop".to_string() }));
    assert_eq!(Request::parse("add/xyz/1/2"), Err(RequestError::InvalidOperandType { token: "xyz".to_string() }));
    assert_eq!(
        Request::parse("bitand/f32/1.0/2.0"),
        Err(RequestError::InvalidOperandType { token: "f32".to_string() })
    );
    assert_eq!(
        Request::parse("shl/u8/f32/1/2"),
        Err(RequestError::InvalidOperandType { token: "f32".to_string() })
    );
}

#[test]
fn encoding_a_request() {
    let request = Request::new(
        Operation::Mul,
        OperandType::Int(IntegerType::U64),
        None,
        "6".to_string(),
        "7".to_string(),
    )
    .unwrap();
    assert_eq!(request.encode(), ["mul", "u64", "6", "7"]);
    assert_eq!(request.path(), "mul/u64/6/7");
    let request = Request::new(
        Operation::Shl,
        OperandType::Int(IntegerType::U8),
        Some(IntegerType::I64),
        "1".to_string(),
        "-3".to_string(),
    )
    .unwrap();
    assert_eq!(request.encode(), ["shl", "u8", "i64", "1", "-3"]);
    assert_eq!(request.path(), "shl/u8/i64/1/-3");
    let request =
        Request::new(Operation::Cmp, OperandType::F64, None, "NaN".to_string(), "1.0".to_string()).unwrap();
    assert_eq!(request.path(), "cmp/f64/NaN/1.0");
}

#[test]
fn requests_that_break_the_rules_are_not_made() {
    for op in OPERATIONS {
        for t in operand_types() {
            for amount in [None, Some(IntegerType::U8)] {
                let made = Request::new(op, t, amount, "1".to_string(), "2".to_string());
                let shift = op.kind() == Family::Shift;
                let expected = op.kind().takes(t) && amount.is_some() == shift;
                assert_eq!(made.is_some(), expected, "{:?} {:?} {:?}", op, t, amount);
            }
        }
    }
}

#[test]
fn decoding_undoes_encoding() {
    let mut count = 0;
    for op in OPERATIONS {
        for t in operand_types() {
            let amounts: Vec<Option<IntegerType>> = match op.kind() {
                Family::Shift => INTEGERS.iter().map(|a| Some(*a)).collect(),
                _ => vec![None],
            };
            for amount in amounts {
                for (lhs, rhs) in [("6", "7"), ("-1", "+0"), ("", ""), ("1.5e3", "NaN"), ("x y", "?")] {
                    let made = Request::new(op, t, amount, lhs.to_string(), rhs.to_string());
                    if let Some(request) = made {
                        assert_eq!(Request::decode(&request.encode()).as_ref(), Ok(&request));
                        assert_eq!(Request::parse(&request.path()).as_ref(), Ok(&request));
                        count += 1;
                    }
                }
            }
        }
    }
    assert_eq!(count, (5 * 10 + 3 * 8 + 2 * 8 * 8 + 2 * 10) * 5);
}

#[test]
fn an_operand_with_a_separator_does_not_come_back() {
    let request = Request::new(
        Operation::Add,
        OperandType::Int(IntegerType::U8),
        None,
        "1/2".to_string(),
        "3".to_string(),
    )
    .unwrap();
    assert_eq!(Request::decode(&request.encode()).as_ref(), Ok(&request));
    assert_eq!(Request::parse(&request.path()), Err(RequestError::Malformed { op: Some(Operation::Add) }));
}
