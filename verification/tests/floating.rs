use network_math::response::{write_order, write_truth};
use network_math::{serve_path, Operation, OperandType, Order, Outcome, Request, Response, Side, Status};

fn order_of(l: f64, r: f64) -> Option<Order> {
    match l.partial_cmp(&r) {
        Some(std::cmp::Ordering::Less) => Some(Order::Less),
        Some(std::cmp::Ordering::Equal) => Some(Order::Equal),
        Some(std::cmp::Ordering::Greater) => Some(Order::Greater),
        None => None,
    }
}

fn finish(request: &Request) -> Response {
    assert_eq!(request.operand_type(), OperandType::F64);
    let l: f64 = match request.lhs().parse() {
        Ok(l) => l,
        Err(_) => return Response::operand_failure(Side::Lhs, request.lhs(), "invalid float literal"),
    };
    let r: f64 = match request.rhs().parse() {
        Ok(r) => r,
        Err(_) => return Response::operand_failure(Side::Rhs, request.rhs(), "invalid float literal"),
    };
    let body = match request.operation() {
        Operation::Add => format!("{}", l + r),
        Operation::Sub => format!("{}", l - r),
        Operation::Mul => format!("{}", l * r),
        Operation::Div => format!("{}", l / r),
        Operation::Rem => format!("{}", l % r),
        Operation::Eq => write_truth(l == r).to_string(),
        Operation::Cmp => write_order(order_of(l, r)).to_string(),
        other => unreachable!("{:?}", other),
    };
    Response::ok(body)
}

fn served(path: &str) -> Response {
    match serve_path(path) {
        Outcome::Answered(response) => response,
        Outcome::Floating(request) => finish(&request),
    }
}

#[test]
fn ordering_of_floating_point_numbers() {
    assert_eq!(served("cmp/f64/1.0/2.0"), Response { status: Status::Success, body: "less".to_string() });
    assert_eq!(served("cmp/f64/NaN/1.0"), Response { status: Status::Success, body: "none".to_string() });
    assert_eq!(served("cmp/f64/2.5/2.5").body, "equal");
    assert_eq!(served("cmp/f64/inf/2.5").body, "greater");
}

#[test]
fn floating_point_division_by_zero_is_a_success() {
    assert_eq!(served("div/f64/1.0/0.0"), Response { status: Status::Success, body: "inf".to_string() });
    assert_eq!(served("div/f64/0.0/0.0").body, "NaN");
    assert_eq!(served("rem/f64/1.0/0.0").body, "NaN");
}

#[test]
fn floating_point_arithmetic_and_equality() {
    assert_eq!(served("add/f64/1.5/2.25").body, "3.75");
    assert_eq!(served("eq/f64/NaN/NaN").body, "false");
    assert_eq!(served("eq/f64/1e2/100").body, "true");
}

#[test]
fn floating_point_operand_that_is_no_literal() {
    assert_eq!(
        served("add/f64/one/2"),
        Response { status: Status::BadRequest, body: "Invalid lhs 'one': invalid float literal".to_string() }
    );
    assert_eq!(
        served("add/f64/1/"),
        Response { status: Status::BadRequest, body: "Invalid rhs '': invalid float literal".to_string() }
    );
}

#[test]
fn bodies_of_truth_values_and_orders() {
    assert_eq!(write_truth(true), "true");
    assert_eq!(write_truth(false), "false");
    assert_eq!(write_order(Some(Order::Less)), "less");
    assert_eq!(write_order(Some(Order::Equal)), "equal");
    assert_eq!(write_order(Some(Order::Greater)), "greater");
    assert_eq!(write_order(None), "none");
}
