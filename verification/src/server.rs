//! The dispatcher: from the segments of a path to the response, as a function of
//! the path alone.

use crate::kinds::{IntegerType, OperandType, Operation, ShiftAmountType};
use crate::literal::{parse_integer, parsed};
use crate::request::{decoded, Request, RequestView};
use crate::response::{
    answer_text, error_message, fault_message, operand_message, Response, ResponseView, Side,
    Status,
};
use crate::text::{split, split_path, views};
use vstd::prelude::*;

verus! {

/// What the dispatcher makes of a path.
#[derive(Debug, PartialEq, Eq)]
pub enum Outcome {
    /// The response is complete.
    Answered(Response),
    /// The request is valid so far and its operands are floating-point numbers:
    /// reading them and carrying out the operation is left to the caller.
    Floating(Request),
}

/// An outcome as a mathematical value.
pub ghost enum OutcomeView {
    Answered(ResponseView),
    Floating(RequestView),
}

impl View for Outcome {
    type V = OutcomeView;

    open spec fn view(&self) -> OutcomeView {
        match self {
            Outcome::Answered(response) => OutcomeView::Answered(response@),
            Outcome::Floating(request) => OutcomeView::Floating(request@),
        }
    }
}

/// The type of the right-hand operand: for a shift the type of the amount, else
/// the type of the left-hand operand.
pub open spec fn rhs_type(t: IntegerType, amount_type: Option<ShiftAmountType>) -> IntegerType {
    match amount_type {
        Some(a) => a,
        None => t,
    }
}

/// The response to a request on integers of type `t`. The left-hand operand is
/// read first, then the right-hand one; the first that is no literal of its type
/// makes the request a bad one. Then the operation is carried out: its answer is
/// the body, and where it has none the request has failed.
pub open spec fn integer_response(
    op: Operation,
    t: IntegerType,
    amount_type: Option<ShiftAmountType>,
    lhs: Seq<char>,
    rhs: Seq<char>,
) -> ResponseView {
    match parsed(t, lhs) {
        Err(fault) => ResponseView::bad_request(operand_message(Side::Lhs, lhs, fault.reason())),
        Ok(l) => match parsed(rhs_type(t, amount_type), rhs) {
            Err(fault) => ResponseView::bad_request(
                operand_message(Side::Rhs, rhs, fault.reason()),
            ),
            Ok(r) => match t.answer(op, l, r) {
                Ok(answer) => ResponseView::ok(answer_text(answer)),
                Err(fault) => ResponseView::failure(fault_message(op, fault)),
            },
        },
    }
}

/// What the dispatcher makes of a request.
pub open spec fn outcome_of(request: RequestView) -> OutcomeView {
    match request.operand_type {
        OperandType::Int(t) => OutcomeView::Answered(
            integer_response(request.op, t, request.shift_type, request.lhs, request.rhs),
        ),
        _ => OutcomeView::Floating(request),
    }
}

/// What the dispatcher makes of path segments: segments that are no request are
/// answered with the reason, a request is carried out.
pub open spec fn served(segments: Seq<Seq<char>>) -> OutcomeView {
    match decoded(segments) {
        Err(error) => OutcomeView::Answered(ResponseView::bad_request(error_message(error))),
        Ok(request) => outcome_of(request),
    }
}

/// A request on integers fails on the server's side in one case only: its
/// operands are literals of their types, the operation is a division or a
/// remainder, and the division has no result. Operands that are no literals make
/// it a bad request; every other request succeeds.
pub proof fn lemma_status(
    op: Operation,
    t: IntegerType,
    amount_type: Option<ShiftAmountType>,
    lhs: Seq<char>,
    rhs: Seq<char>,
)
    ensures
        integer_response(op, t, amount_type, lhs, rhs).status == (match (
            parsed(t, lhs),
            parsed(rhs_type(t, amount_type), rhs),
        ) {
            (Ok(l), Ok(r)) => if (op == Operation::Div || op == Operation::Rem) && t.division_fault(
                l,
                r,
            ) is Some {
                Status::InternalServerError
            } else {
                Status::Success
            },
            _ => Status::BadRequest,
        }),
{
}

/// Carries out a request.
pub fn respond(request: Request) -> (outcome: Outcome)
    ensures
        outcome@ == outcome_of(request@),
{
    proof {
        use_type_invariant(&request);
    }
    let op = request.operation();
    match request.operand_type() {
        OperandType::Int(t) => {
            let amount_type = match request.shift_type() {
                Some(a) => a,
                None => t,
            };
            let l = match parse_integer(t, request.lhs()) {
                Ok(l) => l,
                Err(fault) => {
                    return Outcome::Answered(
                        Response::operand_failure(Side::Lhs, request.lhs(), fault.describe()),
                    );
                },
            };
            let r = match parse_integer(amount_type, request.rhs()) {
                Ok(r) => r,
                Err(fault) => {
                    return Outcome::Answered(
                        Response::operand_failure(Side::Rhs, request.rhs(), fault.describe()),
                    );
                },
            };
            match t.evaluate(op, l, r) {
                Ok(answer) => Outcome::Answered(Response::ok(answer.text())),
                Err(fault) => Outcome::Answered(Response::fault(op, fault)),
            }
        },
        _ => Outcome::Floating(request),
    }
}

/// Answers the path whose segments are `segments`.
pub fn serve(segments: &Vec<String>) -> (outcome: Outcome)
    ensures
        outcome@ == served(views(segments@)),
{
    match Request::decode(segments) {
        Ok(request) => respond(request),
        Err(error) => Outcome::Answered(Response::rejection(&error)),
    }
}

/// Answers `path`, which is split at its separators first.
pub fn serve_path(path: &str) -> (outcome: Outcome)
    ensures
        outcome@ == served(split(path@)),
{
    let segments = split_path(path);
    serve(&segments)
}

} // verus!
