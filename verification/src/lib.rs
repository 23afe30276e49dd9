//! Primitive numeric operations as a remote procedure call that lives entirely in
//! an HTTP path: the request grammar, the dispatcher that answers a request, and
//! the client-side value whose operations become requests.

pub mod agreement;
pub mod client;
pub mod compute;
pub mod demo;
pub mod kinds;
pub mod literal;
pub mod operand;
pub mod request;
pub mod response;
pub mod server;
pub mod text;

pub use client::{BaseAddress, ClientError, NetMath, Reply};
pub use compute::{Answer, ArithmeticFault, Order};
pub use kinds::{Family, IntegerType, OperandType, Operation, ShiftAmountType};
pub use literal::{format_integer, parse_integer, LiteralFault};
pub use operand::IntegerOperand;
pub use request::{Request, RequestError};
pub use response::{Response, Side, Status};
pub use server::{respond, serve, serve_path, Outcome};
