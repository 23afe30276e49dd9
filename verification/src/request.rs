//! Requests: what a path asks for, how a path is read into a request and how a
//! request is written as a path.

use crate::kinds::{Family, IntegerType, OperandType, Operation, ShiftAmountType};
use crate::text::{
    join, join_path, lemma_join_split, lemma_split_join, separator_free, split, split_path, views,
};
use vstd::prelude::*;

verus! {

/// One request: an operation, the type of its operands, for a shift the type of
/// the amount, and the two operands as they stand in the path.
#[derive(Debug, PartialEq, Eq)]
pub struct Request {
    op: Operation,
    operand_type: OperandType,
    shift_type: Option<ShiftAmountType>,
    lhs: String,
    rhs: String,
}

/// A request as a mathematical value.
pub ghost struct RequestView {
    pub op: Operation,
    pub operand_type: OperandType,
    pub shift_type: Option<ShiftAmountType>,
    pub lhs: Seq<char>,
    pub rhs: Seq<char>,
}

/// Why path segments are not a request.
#[derive(Debug, PartialEq, Eq)]
pub enum RequestError {
    /// The number of segments is not the one that the operation takes; `op` is
    /// `None` where there is no segment at all.
    Malformed { op: Option<Operation> },
    /// The first segment names no operation.
    InvalidOperation { token: String },
    /// A segment names no type, or a type that the operation does not take.
    InvalidOperandType { token: String },
}

/// A request error as a mathematical value.
pub ghost enum RequestErrorView {
    Malformed { op: Option<Operation> },
    InvalidOperation { token: Seq<char> },
    InvalidOperandType { token: Seq<char> },
}

impl View for RequestError {
    type V = RequestErrorView;

    open spec fn view(&self) -> RequestErrorView {
        match self {
            RequestError::Malformed { op } => RequestErrorView::Malformed { op: *op },
            RequestError::InvalidOperation { token } => RequestErrorView::InvalidOperation {
                token: token@,
            },
            RequestError::InvalidOperandType { token } => RequestErrorView::InvalidOperandType {
                token: token@,
            },
        }
    }
}

impl RequestView {
    /// The rules that every request obeys: the operand type is one that the
    /// family of the operation takes, and the type of the amount is there for
    /// shifts and for nothing else.
    pub open spec fn well_formed(self) -> bool {
        &&& self.op.family().admits(self.operand_type)
        &&& (self.shift_type is Some <==> self.op.family() is Shift)
    }

    /// The segments of the path that carries the request.
    pub open spec fn segments(self) -> Seq<Seq<char>> {
        match self.shift_type {
            Some(amount_type) => seq![
                self.op.name(),
                self.operand_type.name(),
                amount_type.name(),
                self.lhs,
                self.rhs,
            ],
            None => seq![self.op.name(), self.operand_type.name(), self.lhs, self.rhs],
        }
    }

    /// The path that carries the request.
    pub open spec fn path(self) -> Seq<char> {
        join(self.segments())
    }
}

/// The request that `segments` spell, or the first reason why they spell none:
/// the operation is looked up first, then the number of segments is held
/// against the operation, then the types are looked up.
pub open spec fn decoded(segments: Seq<Seq<char>>) -> Result<RequestView, RequestErrorView> {
    if segments.len() == 0 {
        Err(RequestErrorView::Malformed { op: None })
    } else {
        match Operation::named(segments[0]) {
            None => Err(RequestErrorView::InvalidOperation { token: segments[0] }),
            Some(op) => {
                if segments.len() != op.family().arity() {
                    Err(RequestErrorView::Malformed { op: Some(op) })
                } else {
                    match OperandType::named(segments[1]) {
                        None => Err(RequestErrorView::InvalidOperandType { token: segments[1] }),
                        Some(operand_type) => {
                            if !op.family().admits(operand_type) {
                                Err(RequestErrorView::InvalidOperandType { token: segments[1] })
                            } else if op.family() is Shift {
                                match IntegerType::named(segments[2]) {
                                    None => Err(
                                        RequestErrorView::InvalidOperandType { token: segments[2] },
                                    ),
                                    Some(amount_type) => Ok(
                                        RequestView {
                                            op,
                                            operand_type,
                                            shift_type: Some(amount_type),
                                            lhs: segments[3],
                                            rhs: segments[4],
                                        },
                                    ),
                                }
                            } else {
                                Ok(
                                    RequestView {
                                        op,
                                        operand_type,
                                        shift_type: None,
                                        lhs: segments[2],
                                        rhs: segments[3],
                                    },
                                )
                            }
                        },
                    }
                }
            },
        }
    }
}

impl View for Request {
    type V = RequestView;

    closed spec fn view(&self) -> RequestView {
        RequestView {
            op: self.op,
            operand_type: self.operand_type,
            shift_type: self.shift_type,
            lhs: self.lhs@,
            rhs: self.rhs@,
        }
    }
}

impl Request {
    /// Holds of every request that exists: it obeys the rules of `well_formed`.
    #[verifier::type_invariant]
    pub open spec fn obeys_rules(self) -> bool {
        self@.well_formed()
    }

    /// Makes a request of its parts, if they obey the rules of `well_formed`.
    pub fn new(
        op: Operation,
        operand_type: OperandType,
        shift_type: Option<ShiftAmountType>,
        lhs: String,
        rhs: String,
    ) -> (made: Option<Request>)
        ensures
            made is Some <==> (RequestView {
                op,
                operand_type,
                shift_type,
                lhs: lhs@,
                rhs: rhs@,
            }).well_formed(),
            made matches Some(request) ==> request@ == (RequestView {
                op,
                operand_type,
                shift_type,
                lhs: lhs@,
                rhs: rhs@,
            }),
    {
        let family = op.kind();
        let shift = match family {
            Family::Shift => true,
            _ => false,
        };
        if family.takes(operand_type) && shift_type.is_some() == shift {
            Some(Request { op, operand_type, shift_type, lhs, rhs })
        } else {
            None
        }
    }

    /// The operation that is asked for.
    pub fn operation(&self) -> (op: Operation)
        ensures
            op == self@.op,
    {
        self.op
    }

    /// The type of the operands; for a shift, of the left-hand operand.
    pub fn operand_type(&self) -> (t: OperandType)
        ensures
            t == self@.operand_type,
    {
        self.operand_type
    }

    /// For a shift, the type of the amount.
    pub fn shift_type(&self) -> (t: Option<ShiftAmountType>)
        ensures
            t == self@.shift_type,
    {
        self.shift_type
    }

    /// The text of the left-hand operand.
    pub fn lhs(&self) -> (text: &str)
        ensures
            text@ == self@.lhs,
    {
        self.lhs.as_str()
    }

    /// The text of the right-hand operand.
    pub fn rhs(&self) -> (text: &str)
        ensures
            text@ == self@.rhs,
    {
        self.rhs.as_str()
    }

    /// Reads path segments as a request.
    pub fn decode(segments: &Vec<String>) -> (result: Result<Request, RequestError>)
        ensures
            match result {
                Ok(request) => decoded(views(segments@)) == Ok::<RequestView, RequestErrorView>(
                    request@,
                ),
                Err(error) => decoded(views(segments@)) == Err::<RequestView, RequestErrorView>(
                    error@,
                ),
            },
    {
        if segments.len() == 0 {
            return Err(RequestError::Malformed { op: None });
        }
        let op = match Operation::parse(segments[0].as_str()) {
            Some(op) => op,
            None => {
                return Err(RequestError::InvalidOperation { token: segments[0].clone() });
            },
        };
        let family = op.kind();
        if segments.len() != family.segments() {
            return Err(RequestError::Malformed { op: Some(op) });
        }
        let operand_type = match OperandType::parse(segments[1].as_str()) {
            Some(t) => t,
            None => {
                return Err(RequestError::InvalidOperandType { token: segments[1].clone() });
            },
        };
        if !family.takes(operand_type) {
            return Err(RequestError::InvalidOperandType { token: segments[1].clone() });
        }
        match family {
            Family::Shift => {
                match IntegerType::parse(segments[2].as_str()) {
                    None => Err(RequestError::InvalidOperandType { token: segments[2].clone() }),
                    Some(amount_type) => Ok(
                        Request {
                            op,
                            operand_type,
                            shift_type: Some(amount_type),
                            lhs: segments[3].clone(),
                            rhs: segments[4].clone(),
                        },
                    ),
                }
            },
            _ => Ok(
                Request {
                    op,
                    operand_type,
                    shift_type: None,
                    lhs: segments[2].clone(),
                    rhs: segments[3].clone(),
                },
            ),
        }
    }

    /// Reads a path as a request: the path is split at its separators and the
    /// segments are decoded.
    pub fn parse(path: &str) -> (result: Result<Request, RequestError>)
        ensures
            match result {
                Ok(request) => decoded(split(path@)) == Ok::<RequestView, RequestErrorView>(
                    request@,
                ),
                Err(error) => decoded(split(path@)) == Err::<RequestView, RequestErrorView>(
                    error@,
                ),
            },
    {
        let segments = split_path(path);
        Request::decode(&segments)
    }

    /// The segments of the path that carries the request.
    pub fn encode(&self) -> (segments: Vec<String>)
        ensures
            views(segments@) == self@.segments(),
    {
        let mut segments: Vec<String> = Vec::new();
        segments.push(self.op.token().to_owned());
        segments.push(self.operand_type.token().to_owned());
        match self.shift_type {
            Some(amount_type) => {
                segments.push(amount_type.token().to_owned());
            },
            None => {},
        }
        segments.push(self.lhs.clone());
        segments.push(self.rhs.clone());
        segments
    }

    /// The path that carries the request, without a leading separator.
    pub fn path(&self) -> (path: String)
        ensures
            path@ == self@.path(),
    {
        let segments = self.encode();
        join_path(&segments)
    }
}

/// Decoding undoes encoding: the segments of a well-formed request decode to
/// that request.
pub proof fn lemma_decode_encode(request: RequestView)
    requires
        request.well_formed(),
    ensures
        decoded(request.segments()) == Ok::<RequestView, RequestErrorView>(request),
{
    request.op.lemma_named_name();
    request.operand_type.lemma_named_name();
    match request.shift_type {
        Some(amount_type) => {
            amount_type.lemma_named_name();
        },
        None => {},
    }
}

/// Encoding undoes decoding: segments that decode to a request are the segments
/// of that request, and the request is well-formed.
pub proof fn lemma_encode_decode(segments: Seq<Seq<char>>, request: RequestView)
    requires
        decoded(segments) == Ok::<RequestView, RequestErrorView>(request),
    ensures
        request.segments() == segments,
        request.well_formed(),
{
}

/// Writing undoes reading: a path that reads as a request is the path of that
/// request.
pub proof fn lemma_path_parse(path: Seq<char>, request: RequestView)
    requires
        decoded(split(path)) == Ok::<RequestView, RequestErrorView>(request),
    ensures
        request.path() == path,
{
    lemma_encode_decode(split(path), request);
    lemma_join_split(path);
}

/// Reading undoes writing: the path of a well-formed request whose operands hold
/// no separator splits and decodes to that request.
pub proof fn lemma_parse_path(request: RequestView)
    requires
        request.well_formed(),
        separator_free(request.lhs),
        separator_free(request.rhs),
    ensures
        decoded(split(request.path())) == Ok::<RequestView, RequestErrorView>(request),
{
    request.op.lemma_name_plain();
    request.operand_type.lemma_name_plain();
    match request.shift_type {
        Some(amount_type) => {
            amount_type.lemma_name_plain();
        },
        None => {},
    }
    lemma_split_join(request.segments());
    lemma_decode_encode(request);
}

} // verus!
