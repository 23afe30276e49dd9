//! Client and server agree: the path that a remote value writes is read by the
//! dispatcher as the same request, and what the dispatcher answers is read back
//! by the client as the result of the operation.

use crate::client::{binary_request, shift_request, ClientError, ReplyView};
use crate::compute::{lemma_answer_holds, Answer, ArithmeticFault, Order};
use crate::kinds::{IntegerType, OperandType, Operation};
use crate::literal::{lemma_literal_plain, lemma_parsed_decimal, parsed};
use crate::request::{decoded, lemma_parse_path, RequestErrorView, RequestView};
use crate::response::{
    answer_text, fault_message, lemma_order_of_text, lemma_truth_of_text, ResponseView,
};
use crate::server::{rhs_type, served, OutcomeView};
use crate::text::split;
use vstd::prelude::*;

verus! {

/// Whether the operands of a request on integers are literals of their types.
pub open spec fn operands_valid(request: RequestView) -> bool {
    match request.operand_type {
        OperandType::Int(t) => parsed(t, request.lhs) is Ok && parsed(
            rhs_type(t, request.shift_type),
            request.rhs,
        ) is Ok,
        _ => false,
    }
}

/// The response that states the result of an operation: the answer as a
/// success, a fault as a failure of the server.
pub open spec fn stated(op: Operation, result: Result<Answer<int>, ArithmeticFault>)
    -> ResponseView {
    match result {
        Ok(answer) => ResponseView::ok(answer_text(answer)),
        Err(fault) => ResponseView::failure(fault_message(op, fault)),
    }
}

/// The reply that a client receives when the server sends `response`.
pub open spec fn delivered(response: ResponseView) -> ReplyView {
    ReplyView::Received { status: response.status.number(), body: response.body }
}

/// The reply that reaches a client whose request is answered by the dispatcher.
pub open spec fn answered(request: RequestView) -> ReplyView {
    match served(split(request.path())) {
        OutcomeView::Answered(response) => delivered(response),
        OutcomeView::Floating(_) => ReplyView::Unreachable,
    }
}

/// What a client reads in a reply that states `result`, the result of an
/// operation on operands of type `t`: the answer itself, and for a fault a
/// network failure with the status of a failed server.
pub open spec fn read_as(
    t: IntegerType,
    reply: ReplyView,
    result: Result<Answer<int>, ArithmeticFault>,
) -> bool {
    match result {
        Ok(Answer::Number(n)) => reply.number(t) == Ok::<int, ClientError>(n),
        Ok(Answer::Truth(b)) => reply.truth() == Ok::<bool, ClientError>(b),
        Ok(Answer::Order(o)) => reply.order() == Ok::<Option<Order>, ClientError>(o),
        Err(_) => reply.body() == Err::<Seq<char>, ClientError>(
            ClientError::NetworkFailure { status: Some(500) },
        ),
    }
}

/// Every request that a remote value makes for an operation on two values is
/// valid: it is well-formed, and its operands are literals of their type.
pub proof fn lemma_request_valid(t: IntegerType, op: Operation, l: int, r: int)
    requires
        t.holds(l),
        t.holds(r),
        !(op.family() is Shift),
    ensures
        binary_request(op, t, l, r).well_formed(),
        operands_valid(binary_request(op, t, l, r)),
{
    lemma_parsed_decimal(t, l);
    lemma_parsed_decimal(t, r);
}

/// Every request that a remote value makes for a shift is valid: it is
/// well-formed, and its operands are literals of their types.
pub proof fn lemma_shift_request_valid(
    t: IntegerType,
    amount_type: IntegerType,
    op: Operation,
    l: int,
    amount: int,
)
    requires
        t.holds(l),
        amount_type.holds(amount),
        op.family() is Shift,
    ensures
        shift_request(op, t, amount_type, l, amount).well_formed(),
        operands_valid(shift_request(op, t, amount_type, l, amount)),
{
    lemma_parsed_decimal(t, l);
    lemma_parsed_decimal(amount_type, amount);
}

/// The path of a valid request reads as that request, where a request is valid
/// if it is well-formed, on integers, and its operands are literals of their
/// types.
pub proof fn lemma_valid_path_read(request: RequestView)
    requires
        request.well_formed(),
        operands_valid(request),
    ensures
        decoded(split(request.path())) == Ok::<RequestView, RequestErrorView>(request),
{
    match request.operand_type {
        OperandType::Int(t) => {
            lemma_literal_plain(t, request.lhs);
            lemma_literal_plain(rhs_type(t, request.shift_type), request.rhs);
        },
        _ => {},
    }
    lemma_parse_path(request);
}

/// The path of the request that a client makes for `op` on two values of type
/// `t` is answered by the dispatcher with the result of `op` on those values.
pub proof fn lemma_request_served(t: IntegerType, op: Operation, l: int, r: int)
    requires
        t.holds(l),
        t.holds(r),
        !(op.family() is Shift),
    ensures
        served(split(binary_request(op, t, l, r).path())) == OutcomeView::Answered(
            stated(op, t.answer(op, l, r)),
        ),
{
    let request = binary_request(op, t, l, r);
    lemma_parsed_decimal(t, l);
    lemma_parsed_decimal(t, r);
    lemma_parse_path(request);
}

/// The path of the request that a client makes for the shift `op` of a value of
/// type `t` by an amount of type `amount_type` is answered by the dispatcher with
/// the result of the shift.
pub proof fn lemma_shift_served(
    t: IntegerType,
    amount_type: IntegerType,
    op: Operation,
    l: int,
    amount: int,
)
    requires
        t.holds(l),
        amount_type.holds(amount),
        op.family() is Shift,
    ensures
        served(split(shift_request(op, t, amount_type, l, amount).path()))
            == OutcomeView::Answered(stated(op, t.answer(op, l, amount))),
{
    let request = shift_request(op, t, amount_type, l, amount);
    lemma_parsed_decimal(t, l);
    lemma_parsed_decimal(amount_type, amount);
    lemma_parse_path(request);
}

/// A client reads in the response that states a result that very result.
pub proof fn lemma_reply_read(t: IntegerType, op: Operation, l: int, r: int)
    requires
        t.holds(l),
        op.family() is Shift ==> IntegerType::is_amount(r),
        !(op.family() is Shift) ==> t.holds(r),
    ensures
        read_as(t, delivered(stated(op, t.answer(op, l, r))), t.answer(op, l, r)),
{
    lemma_answer_holds(t, op, l, r);
    match t.answer(op, l, r) {
        Ok(Answer::Number(n)) => lemma_parsed_decimal(t, n),
        Ok(Answer::Truth(b)) => lemma_truth_of_text(b),
        Ok(Answer::Order(o)) => lemma_order_of_text(o),
        Err(_) => {},
    }
}

/// The whole round trip: a client that sends the request for `op` on two values
/// of type `t` to the dispatcher reads in the reply the result of `op` on those
/// values.
pub proof fn lemma_round_trip(t: IntegerType, op: Operation, l: int, r: int)
    requires
        t.holds(l),
        t.holds(r),
        !(op.family() is Shift),
    ensures
        read_as(t, answered(binary_request(op, t, l, r)), t.answer(op, l, r)),
{
    lemma_request_served(t, op, l, r);
    lemma_reply_read(t, op, l, r);
}

/// The whole round trip of a shift: a client that sends the request for the
/// shift `op` of a value of type `t` by an amount of type `amount_type` to the
/// dispatcher reads in the reply the shifted value.
pub proof fn lemma_shift_round_trip(
    t: IntegerType,
    amount_type: IntegerType,
    op: Operation,
    l: int,
    amount: int,
)
    requires
        t.holds(l),
        amount_type.holds(amount),
        op.family() is Shift,
    ensures
        read_as(t, answered(shift_request(op, t, amount_type, l, amount)), t.answer(op, l, amount)),
{
    lemma_shift_served(t, amount_type, op, l, amount);
    lemma_reply_read(t, op, l, amount);
}

} // verus!
