//! Responses: the status and the plain-text body that answer a request, and the
//! wording of each body.

use crate::compute::{Answer, ArithmeticFault, Order};
use crate::kinds::Operation;
use crate::literal::{decimal, format_integer, LiteralFault};
use crate::request::{RequestError, RequestErrorView};
use crate::text::{chars_of, spells};
use vstd::prelude::*;
use vstd::string::StringExecFns;

verus! {

/// How a request ended.
#[derive(Clone, Copy, Debug, PartialEq, Eq, Structural)]
pub enum Status {
    /// The body is the result.
    Success,
    /// The request was not valid; the body says why.
    BadRequest,
    /// The request was valid, and carrying it out failed.
    InternalServerError,
}

/// One of the two operands of a request.
#[derive(Clone, Copy, Debug, PartialEq, Eq, Structural)]
pub enum Side {
    Lhs,
    Rhs,
}

/// The answer to a request.
#[derive(Debug, PartialEq, Eq)]
pub struct Response {
    pub status: Status,
    pub body: String,
}

/// A response as a mathematical value.
pub ghost struct ResponseView {
    pub status: Status,
    pub body: Seq<char>,
}

impl View for Response {
    type V = ResponseView;

    open spec fn view(&self) -> ResponseView {
        ResponseView { status: self.status, body: self.body@ }
    }
}

impl Status {
    /// The number of the status in HTTP.
    pub open spec fn number(self) -> int {
        match self {
            Status::Success => 200,
            Status::BadRequest => 400,
            Status::InternalServerError => 500,
        }
    }

    /// The number of the status in HTTP.
    pub fn code(self) -> (n: u16)
        ensures
            n == self.number(),
    {
        match self {
            Status::Success => 200,
            Status::BadRequest => 400,
            Status::InternalServerError => 500,
        }
    }
}

impl Side {
    /// The name of the operand in messages.
    pub open spec fn name(self) -> Seq<char> {
        match self {
            Side::Lhs => "lhs"@,
            Side::Rhs => "rhs"@,
        }
    }

    /// The name of the operand in messages.
    pub fn token(self) -> (word: &'static str)
        ensures
            word@ == self.name(),
    {
        match self {
            Side::Lhs => "lhs",
            Side::Rhs => "rhs",
        }
    }
}

impl LiteralFault {
    /// The fault in words.
    pub open spec fn reason(self) -> Seq<char> {
        match self {
            LiteralFault::Empty => "cannot parse integer from empty string"@,
            LiteralFault::InvalidDigit => "invalid digit found in string"@,
            LiteralFault::TooLarge => "number too large to fit in target type"@,
            LiteralFault::TooSmall => "number too small to fit in target type"@,
        }
    }

    /// The fault in words.
    pub fn describe(self) -> (words: &'static str)
        ensures
            words@ == self.reason(),
    {
        match self {
            LiteralFault::Empty => "cannot parse integer from empty string",
            LiteralFault::InvalidDigit => "invalid digit found in string",
            LiteralFault::TooLarge => "number too large to fit in target type",
            LiteralFault::TooSmall => "number too small to fit in target type",
        }
    }
}

/// The body for a truth value.
pub open spec fn truth_text(b: bool) -> Seq<char> {
    if b {
        "true"@
    } else {
        "false"@
    }
}

/// The body for an order; `none` stands for operands that are unordered.
pub open spec fn order_text(o: Option<Order>) -> Seq<char> {
    match o {
        Some(Order::Less) => "less"@,
        Some(Order::Equal) => "equal"@,
        Some(Order::Greater) => "greater"@,
        None => "none"@,
    }
}

/// The body for an answer: a number in canonical decimal text, a truth value as
/// `true` or `false`, an order as one of `less`, `equal`, `greater`, `none`.
pub open spec fn answer_text(answer: Answer<int>) -> Seq<char> {
    match answer {
        Answer::Number(n) => decimal(n),
        Answer::Truth(b) => truth_text(b),
        Answer::Order(o) => order_text(o),
    }
}

/// The truth value that `body` states, if it states one.
pub open spec fn truth_of(body: Seq<char>) -> Option<bool> {
    if body == "true"@ {
        Some(true)
    } else if body == "false"@ {
        Some(false)
    } else {
        None
    }
}

/// The order that `body` states, if it states one.
pub open spec fn order_of(body: Seq<char>) -> Option<Option<Order>> {
    if body == "less"@ {
        Some(Some(Order::Less))
    } else if body == "equal"@ {
        Some(Some(Order::Equal))
    } else if body == "greater"@ {
        Some(Some(Order::Greater))
    } else if body == "none"@ {
        Some(None)
    } else {
        None
    }
}

/// The message for a request error: it names the operation and the number of
/// segments that it takes, or the word that was not understood.
pub open spec fn error_message(error: RequestErrorView) -> Seq<char> {
    match error {
        RequestErrorView::Malformed { op: None } => "Not enough path segments!"@,
        RequestErrorView::Malformed { op: Some(op) } => "Wrong number of path segments in "@
            + op.name() + ": expected "@ + decimal(op.family().arity() as int),
        RequestErrorView::InvalidOperation { token } => "Invalid op '"@ + token + "'"@,
        RequestErrorView::InvalidOperandType { token } => "Invalid type '"@ + token + "'"@,
    }
}

/// The message for an operand that is no literal of its type: it names the
/// operand, quotes its text and gives the reason.
pub open spec fn operand_message(side: Side, text: Seq<char>, reason: Seq<char>) -> Seq<char> {
    "Invalid "@ + side.name() + " '"@ + text + "': "@ + reason
}

/// The message for an operation that has no result.
pub open spec fn fault_message(op: Operation, fault: ArithmeticFault) -> Seq<char> {
    match fault {
        ArithmeticFault::ZeroDivisor => if op == Operation::Rem {
            "attempt to calculate the remainder with a divisor of zero"@
        } else {
            "attempt to divide by zero"@
        },
        ArithmeticFault::Overflow => if op == Operation::Rem {
            "attempt to calculate the remainder with overflow"@
        } else {
            "attempt to divide with overflow"@
        },
    }
}

impl ResponseView {
    /// The response that carries a result.
    pub open spec fn ok(body: Seq<char>) -> ResponseView {
        ResponseView { status: Status::Success, body }
    }

    /// The response to a request that is not valid.
    pub open spec fn bad_request(body: Seq<char>) -> ResponseView {
        ResponseView { status: Status::BadRequest, body }
    }

    /// The response to a request that failed while it was carried out.
    pub open spec fn failure(body: Seq<char>) -> ResponseView {
        ResponseView { status: Status::InternalServerError, body }
    }
}

/// The body for a truth value.
pub fn write_truth(b: bool) -> (body: &'static str)
    ensures
        body@ == truth_text(b),
{
    if b {
        "true"
    } else {
        "false"
    }
}

/// The body for an order; `none` stands for operands that are unordered.
pub fn write_order(o: Option<Order>) -> (body: &'static str)
    ensures
        body@ == order_text(o),
{
    match o {
        Some(Order::Less) => "less",
        Some(Order::Equal) => "equal",
        Some(Order::Greater) => "greater",
        None => "none",
    }
}

/// Reads a body as a truth value: `true` or `false`, and nothing else.
pub fn read_truth(body: &str) -> (b: Option<bool>)
    ensures
        b == truth_of(body@),
{
    let chars = chars_of(body);
    if spells(&chars, "true") {
        Some(true)
    } else if spells(&chars, "false") {
        Some(false)
    } else {
        None
    }
}

/// Reads a body as an order: one of `less`, `equal`, `greater`, `none`.
pub fn read_order(body: &str) -> (o: Option<Option<Order>>)
    ensures
        o == order_of(body@),
{
    let chars = chars_of(body);
    if spells(&chars, "less") {
        Some(Some(Order::Less))
    } else if spells(&chars, "equal") {
        Some(Some(Order::Equal))
    } else if spells(&chars, "greater") {
        Some(Some(Order::Greater))
    } else if spells(&chars, "none") {
        Some(None)
    } else {
        None
    }
}

/// A truth value is read back from its body.
pub proof fn lemma_truth_of_text(b: bool)
    ensures
        truth_of(truth_text(b)) == Some(b),
{
    reveal_strlit("true");
    reveal_strlit("false");
    assert("true"@.len() == 4 && "false"@.len() == 5);
}

/// An order is read back from its body.
pub proof fn lemma_order_of_text(o: Option<Order>)
    ensures
        order_of(order_text(o)) == Some(o),
{
    reveal_strlit("less");
    reveal_strlit("equal");
    reveal_strlit("greater");
    reveal_strlit("none");
    assert("less"@.len() == 4 && "less"@[0] == 'l');
    assert("equal"@.len() == 5);
    assert("greater"@.len() == 7);
    assert("none"@.len() == 4 && "none"@[0] == 'n');
}

impl Answer<i128> {
    /// The body for the answer.
    pub fn text(&self) -> (body: String)
        ensures
            body@ == answer_text(self@),
    {
        match self {
            Answer::Number(n) => format_integer(*n),
            Answer::Truth(b) => write_truth(*b).to_owned(),
            Answer::Order(o) => write_order(*o).to_owned(),
        }
    }
}

impl Response {
    /// The response that carries the result `body`.
    pub fn ok(body: String) -> (response: Response)
        ensures
            response@ == ResponseView::ok(body@),
    {
        Response { status: Status::Success, body }
    }

    /// The response to a request that is not valid, with the message `body`.
    pub fn bad_request(body: String) -> (response: Response)
        ensures
            response@ == ResponseView::bad_request(body@),
    {
        Response { status: Status::BadRequest, body }
    }

    /// The response to path segments that are not a request.
    pub fn rejection(error: &RequestError) -> (response: Response)
        ensures
            response@ == ResponseView::bad_request(error_message(error@)),
    {
        let mut body = String::new();
        match error {
            RequestError::Malformed { op: None } => {
                body.append("Not enough path segments!");
            },
            RequestError::Malformed { op: Some(op) } => {
                body.append("Wrong number of path segments in ");
                body.append(op.token());
                body.append(": expected ");
                let arity = format_integer(op.kind().segments() as i128);
                body.append(arity.as_str());
            },
            RequestError::InvalidOperation { token } => {
                body.append("Invalid op '");
                body.append(token.as_str());
                body.append("'");
            },
            RequestError::InvalidOperandType { token } => {
                body.append("Invalid type '");
                body.append(token.as_str());
                body.append("'");
            },
        }
        Response { status: Status::BadRequest, body }
    }

    /// The response to an operand that is no literal of its type: `text` is the
    /// operand as it stood in the path, `reason` says what is wrong with it.
    pub fn operand_failure(side: Side, text: &str, reason: &str) -> (response: Response)
        ensures
            response@ == ResponseView::bad_request(operand_message(side, text@, reason@)),
    {
        let mut body = String::new();
        body.append("Invalid ");
        body.append(side.token());
        body.append(" '");
        body.append(text);
        body.append("': ");
        body.append(reason);
        Response { status: Status::BadRequest, body }
    }

    /// The response to an operation that has no result.
    pub fn fault(op: Operation, fault: ArithmeticFault) -> (response: Response)
        ensures
            response@ == ResponseView::failure(fault_message(op, fault)),
    {
        let remainder = op == Operation::Rem;
        let words = match fault {
            ArithmeticFault::ZeroDivisor => if remainder {
                "attempt to calculate the remainder with a divisor of zero"
            } else {
                "attempt to divide by zero"
            },
            ArithmeticFault::Overflow => if remainder {
                "attempt to calculate the remainder with overflow"
            } else {
                "attempt to divide with overflow"
            },
        };
        Response { status: Status::InternalServerError, body: words.to_owned() }
    }
}

} // verus!
