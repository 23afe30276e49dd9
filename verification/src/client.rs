//! The client side: a value whose operations are carried out by a server. Each
//! operation is one request and one reply; building the request and reading the
//! reply are decided here, sending the one and receiving the other is left to the
//! caller.

use crate::compute::Order;
use crate::kinds::{IntegerType, OperandType, Operation};
use crate::literal::{decimal, format_integer, parse_integer, parsed};
use crate::operand::IntegerOperand;
use crate::request::{Request, RequestView};
use crate::response::{order_of, read_order, read_truth, truth_of};
use vstd::prelude::*;
use vstd::string::StringExecFns;

verus! {

/// A value of a primitive numeric type on which the server computes.
#[derive(Clone, Copy, Debug)]
pub struct NetMath<T>(pub T);

/// The address, as host and port, of the server that clients turn to. It is unset
/// at first and has to be set before the first request.
#[derive(Debug, PartialEq, Eq)]
pub struct BaseAddress {
    url: Option<String>,
}

/// What came back for a request.
#[derive(Debug, PartialEq, Eq)]
pub enum Reply {
    /// The server could not be reached, or the exchange broke off.
    Unreachable,
    /// A response arrived, with this status and this body.
    Received { status: u16, body: String },
}

/// A reply as a mathematical value.
pub ghost enum ReplyView {
    Unreachable,
    Received { status: int, body: Seq<char> },
}

/// Why an operation of a remote value has no result.
#[derive(Clone, Copy, Debug, PartialEq, Eq, Structural)]
pub enum ClientError {
    /// No response arrived (`status` is `None`), or one whose status is not a
    /// success.
    NetworkFailure { status: Option<u16> },
    /// The response was a success, and its body is not a result of the kind that
    /// the operation gives.
    ResponseDecode,
}

impl View for Reply {
    type V = ReplyView;

    open spec fn view(&self) -> ReplyView {
        match self {
            Reply::Unreachable => ReplyView::Unreachable,
            Reply::Received { status, body } => ReplyView::Received {
                status: *status as int,
                body: body@,
            },
        }
    }
}

impl View for BaseAddress {
    type V = Option<Seq<char>>;

    closed spec fn view(&self) -> Option<Seq<char>> {
        match self.url {
            Some(url) => Some(url@),
            None => None,
        }
    }
}

/// Whether a status is a success: the numbers from 200 to 299.
pub open spec fn is_success(status: int) -> bool {
    200 <= status <= 299
}

/// The address of a request: the scheme, the server's address, a separator and
/// the path.
pub open spec fn location(base: Seq<char>, path: Seq<char>) -> Seq<char> {
    "http://"@ + base + "/"@ + path
}

impl ReplyView {
    /// The body of a reply that is a success; any other reply is a network
    /// failure.
    pub open spec fn body(self) -> Result<Seq<char>, ClientError> {
        match self {
            ReplyView::Unreachable => Err(ClientError::NetworkFailure { status: None }),
            ReplyView::Received { status, body } => if is_success(status) {
                Ok(body)
            } else {
                Err(ClientError::NetworkFailure { status: Some(status as u16) })
            },
        }
    }

    /// The number of type `t` that a reply carries.
    pub open spec fn number(self, t: IntegerType) -> Result<int, ClientError> {
        match self.body() {
            Err(error) => Err(error),
            Ok(body) => match parsed(t, body) {
                Ok(n) => Ok(n),
                Err(_) => Err(ClientError::ResponseDecode),
            },
        }
    }

    /// The truth value that a reply carries.
    pub open spec fn truth(self) -> Result<bool, ClientError> {
        match self.body() {
            Err(error) => Err(error),
            Ok(body) => match truth_of(body) {
                Some(b) => Ok(b),
                None => Err(ClientError::ResponseDecode),
            },
        }
    }

    /// The order that a reply carries.
    pub open spec fn order(self) -> Result<Option<Order>, ClientError> {
        match self.body() {
            Err(error) => Err(error),
            Ok(body) => match order_of(body) {
                Some(o) => Ok(o),
                None => Err(ClientError::ResponseDecode),
            },
        }
    }
}

impl BaseAddress {
    /// The address before it is set.
    pub fn unset() -> (address: BaseAddress)
        ensures
            address@ is None,
    {
        BaseAddress { url: None }
    }

    /// The server's address, once it is set.
    pub fn get(&self) -> (url: Option<&str>)
        ensures
            match url {
                Some(text) => self@ == Some(text@),
                None => self@ is None,
            },
    {
        match &self.url {
            Some(url) => Some(url.as_str()),
            None => None,
        }
    }

    /// Where `request` is to be sent; `None` while the address is unset.
    pub fn locate(&self, request: &Request) -> (target: Option<String>)
        ensures
            match target {
                Some(text) => self@ is Some && text@ == location(self@->0, request@.path()),
                None => self@ is None,
            },
    {
        match &self.url {
            Some(base) => {
                let mut target = String::new();
                target.append("http://");
                target.append(base.as_str());
                target.append("/");
                let path = request.path();
                target.append(path.as_str());
                Some(target)
            },
            None => None,
        }
    }
}

impl<T> NetMath<T> {
    /// Wraps `x`.
    pub fn new(x: T) -> (value: Self)
        ensures
            value.0 == x,
    {
        NetMath(x)
    }
}

impl NetMath<()> {
    /// Sets the address of the server to `url`, whatever it was before.
    pub fn set_url(address: &mut BaseAddress, url: &str)
        ensures
            final(address)@ == Some(url@),
    {
        address.url = Some(url.to_owned());
    }
}

impl Reply {
    /// The body of a reply that is a success.
    pub fn body(&self) -> (result: Result<&str, ClientError>)
        ensures
            match result {
                Ok(text) => self@.body() == Ok::<Seq<char>, ClientError>(text@),
                Err(error) => self@.body() == Err::<Seq<char>, ClientError>(error),
            },
    {
        match self {
            Reply::Unreachable => Err(ClientError::NetworkFailure { status: None }),
            Reply::Received { status, body } => {
                if 200 <= *status && *status <= 299 {
                    Ok(body.as_str())
                } else {
                    Err(ClientError::NetworkFailure { status: Some(*status) })
                }
            },
        }
    }

    /// Reads the reply to an equality request.
    pub fn truth(&self) -> (result: Result<bool, ClientError>)
        ensures
            result == self@.truth(),
    {
        match self.body() {
            Err(error) => Err(error),
            Ok(body) => match read_truth(body) {
                Some(b) => Ok(b),
                None => Err(ClientError::ResponseDecode),
            },
        }
    }

    /// Reads the reply to an ordering request.
    pub fn order(&self) -> (result: Result<Option<Order>, ClientError>)
        ensures
            result == self@.order(),
    {
        match self.body() {
            Err(error) => Err(error),
            Ok(body) => match read_order(body) {
                Some(o) => Ok(o),
                None => Err(ClientError::ResponseDecode),
            },
        }
    }
}

/// The request for `op` on two operands of the integer type `t`.
pub open spec fn binary_request(op: Operation, t: IntegerType, lhs: int, rhs: int) -> RequestView {
    RequestView {
        op,
        operand_type: OperandType::Int(t),
        shift_type: None,
        lhs: decimal(lhs),
        rhs: decimal(rhs),
    }
}

/// The request for the shift `op` of a value of type `t` by an amount of type
/// `amount_type`.
pub open spec fn shift_request(
    op: Operation,
    t: IntegerType,
    amount_type: IntegerType,
    lhs: int,
    amount: int,
) -> RequestView {
    RequestView {
        op,
        operand_type: OperandType::Int(t),
        shift_type: Some(amount_type),
        lhs: decimal(lhs),
        rhs: decimal(amount),
    }
}

impl<T: IntegerOperand> NetMath<T> {
    /// The request that asks for `op` on this value and `rhs`. There is none
    /// where `op` is a shift, which takes an amount.
    pub fn request(&self, op: Operation, rhs: &NetMath<T>) -> (made: Option<Request>)
        ensures
            made is Some <==> !(op.family() is Shift),
            made matches Some(request) ==> request@ == binary_request(
                op,
                T::kind(),
                self.0.number(),
                rhs.0.number(),
            ),
    {
        Request::new(
            op,
            OperandType::Int(T::integer_type()),
            None,
            format_integer(self.0.widen()),
            format_integer(rhs.0.widen()),
        )
    }

    /// The request that asks for this value shifted by `amount`, where `op` is one
    /// of the two shifts. There is none where `op` is another operation.
    pub fn shift_by<U: IntegerOperand>(&self, op: Operation, amount: U) -> (made: Option<Request>)
        ensures
            made is Some <==> op.family() is Shift,
            made matches Some(request) ==> request@ == shift_request(
                op,
                T::kind(),
                U::kind(),
                self.0.number(),
                amount.number(),
            ),
    {
        Request::new(
            op,
            OperandType::Int(T::integer_type()),
            Some(U::integer_type()),
            format_integer(self.0.widen()),
            format_integer(amount.widen()),
        )
    }

    /// Reads the reply to a request whose result is a number of this type.
    pub fn accept(reply: &Reply) -> (result: Result<NetMath<T>, ClientError>)
        ensures
            match result {
                Ok(value) => reply@.number(T::kind()) == Ok::<int, ClientError>(value.0.number()),
                Err(error) => reply@.number(T::kind()) == Err::<int, ClientError>(error),
            },
    {
        match reply.body() {
            Err(error) => Err(error),
            Ok(body) => match parse_integer(T::integer_type(), body) {
                Ok(n) => Ok(NetMath(T::narrow(n))),
                Err(_) => Err(ClientError::ResponseDecode),
            },
        }
    }
}

} // verus!
