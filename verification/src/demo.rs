//! Two computations on remote values: the Fibonacci numbers, and a primality
//! test by trial division. Every sum, product, remainder and comparison in them
//! is one request to the server. Each computation says which request it waits
//! for and is resumed with the reply; the exchange itself is left to the caller.

use crate::agreement::{answered, lemma_round_trip};
use crate::client::{binary_request, ClientError, NetMath, Reply, ReplyView};
use crate::compute::Order;
use crate::kinds::{IntegerType, Operation};
use crate::request::{Request, RequestView};
use vstd::prelude::*;

verus! {

/// The Fibonacci numbers, one after the other.
#[derive(Clone, Copy, Debug)]
pub struct Fib {
    a: NetMath<u64>,
    b: NetMath<u64>,
}

/// What a primality test waits for.
#[derive(Clone, Copy, Debug, PartialEq, Eq, Structural)]
pub enum Stage {
    /// The remainder of the number by two.
    Halving,
    /// Whether the remainder `rest` of the number by two is zero.
    EvenCheck { rest: u64 },
    /// The square of the divisor `i`.
    Squaring { i: u64 },
    /// How `square`, the square of the divisor `i`, stands to the number.
    Bounding { i: u64, square: u64 },
    /// The remainder of the number by the divisor `i`.
    Dividing { i: u64 },
    /// Whether the remainder `rest` of the number by the divisor `i` is zero.
    DivisorCheck { i: u64, rest: u64 },
    /// The divisor after `i`: the sum of `i` and two.
    Stepping { i: u64 },
}

/// A primality test of the number `x` that has come to `stage`.
#[derive(Clone, Copy, Debug, PartialEq, Eq, Structural)]
pub struct PrimeTest {
    pub x: u64,
    pub stage: Stage,
}

/// How a primality test goes on after a reply.
#[derive(Clone, Copy, Debug, PartialEq, Eq, Structural)]
pub enum Progress {
    /// The test waits for another reply.
    Waiting(PrimeTest),
    /// The test has ended: the number was found prime, or not.
    Verdict(bool),
}

impl Fib {
    /// The number that the next step yields.
    pub closed spec fn current(self) -> int {
        self.a.0 as int
    }

    /// The number that the step after the next yields.
    pub closed spec fn following(self) -> int {
        self.b.0 as int
    }

    /// The sequence at its start: zero, then one.
    pub fn new() -> (fib: Fib)
        ensures
            fib.current() == 0,
            fib.following() == 1,
    {
        Fib { a: NetMath(0), b: NetMath(1) }
    }

    /// The request that the next step needs the reply to: the sum of the current
    /// number and the following one.
    pub fn pending(&self) -> (request: Request)
        ensures
            request@ == binary_request(
                Operation::Add,
                IntegerType::U64,
                self.current(),
                self.following(),
            ),
    {
        self.a.request(Operation::Add, &self.b).unwrap()
    }

    /// Takes one step with the reply to the pending request: yields the current
    /// number, and moves on to the following number and the sum that the reply
    /// carries. Where the reply carries no sum the sequence stays where it is.
    pub fn advance(&mut self, reply: &Reply) -> (result: Result<NetMath<u64>, ClientError>)
        ensures
            match result {
                Ok(number) => {
                    &&& number.0 == old(self).current()
                    &&& final(self).current() == old(self).following()
                    &&& reply@.number(IntegerType::U64) == Ok::<int, ClientError>(
                        final(self).following(),
                    )
                },
                Err(error) => {
                    &&& reply@.number(IntegerType::U64) == Err::<int, ClientError>(error)
                    &&& *final(self) == *old(self)
                },
            },
    {
        match NetMath::<u64>::accept(reply) {
            Ok(sum) => {
                let number = self.a;
                self.a = self.b;
                self.b = sum;
                Ok(number)
            },
            Err(error) => Err(error),
        }
    }
}

impl PrimeTest {
    /// The request that the test waits for the reply to.
    pub open spec fn asked(self) -> RequestView {
        let t = IntegerType::U64;
        let x = self.x as int;
        match self.stage {
            Stage::Halving => binary_request(Operation::Rem, t, x, 2),
            Stage::EvenCheck { rest } => binary_request(Operation::Eq, t, rest as int, 0),
            Stage::Squaring { i } => binary_request(Operation::Mul, t, i as int, i as int),
            Stage::Bounding { square, .. } => binary_request(Operation::Cmp, t, square as int, x),
            Stage::Dividing { i } => binary_request(Operation::Rem, t, x, i as int),
            Stage::DivisorCheck { rest, .. } => binary_request(Operation::Eq, t, rest as int, 0),
            Stage::Stepping { i } => binary_request(Operation::Add, t, i as int, 2),
        }
    }

    /// How the test goes on after `reply`. An even number is not prime. An odd
    /// number is tried with the divisors three, five and so on: it is prime as
    /// soon as the square of the divisor is greater than the number, and not
    /// prime as soon as a divisor leaves no remainder. A reply that does not
    /// carry what the stage waits for ends the test with the error.
    pub open spec fn resumed(self, reply: ReplyView) -> Result<Progress, ClientError> {
        let x = self.x;
        let t = IntegerType::U64;
        match self.stage {
            Stage::Halving => match reply.number(t) {
                Ok(rest) => Ok(
                    Progress::Waiting(PrimeTest { x, stage: Stage::EvenCheck { rest: rest as u64 } }),
                ),
                Err(error) => Err(error),
            },
            Stage::EvenCheck { .. } => match reply.truth() {
                Ok(zero) => if zero {
                    Ok(Progress::Verdict(false))
                } else {
                    Ok(Progress::Waiting(PrimeTest { x, stage: Stage::Squaring { i: 3 } }))
                },
                Err(error) => Err(error),
            },
            Stage::Squaring { i } => match reply.number(t) {
                Ok(square) => Ok(
                    Progress::Waiting(
                        PrimeTest { x, stage: Stage::Bounding { i, square: square as u64 } },
                    ),
                ),
                Err(error) => Err(error),
            },
            Stage::Bounding { i, .. } => match reply.order() {
                Ok(order) => if order == Some(Order::Greater) {
                    Ok(Progress::Verdict(true))
                } else {
                    Ok(Progress::Waiting(PrimeTest { x, stage: Stage::Dividing { i } }))
                },
                Err(error) => Err(error),
            },
            Stage::Dividing { i } => match reply.number(t) {
                Ok(rest) => Ok(
                    Progress::Waiting(
                        PrimeTest { x, stage: Stage::DivisorCheck { i, rest: rest as u64 } },
                    ),
                ),
                Err(error) => Err(error),
            },
            Stage::DivisorCheck { i, .. } => match reply.truth() {
                Ok(zero) => if zero {
                    Ok(Progress::Verdict(false))
                } else {
                    Ok(Progress::Waiting(PrimeTest { x, stage: Stage::Stepping { i } }))
                },
                Err(error) => Err(error),
            },
            Stage::Stepping { i } => match reply.number(t) {
                Ok(next) => Ok(
                    Progress::Waiting(PrimeTest { x, stage: Stage::Squaring { i: next as u64 } }),
                ),
                Err(error) => Err(error),
            },
        }
    }

    /// The request that the test waits for the reply to.
    pub fn pending(&self) -> (request: Request)
        ensures
            request@ == self.asked(),
    {
        let x = NetMath(self.x);
        let made = match self.stage {
            Stage::Halving => x.request(Operation::Rem, &NetMath(2)),
            Stage::EvenCheck { rest } => NetMath(rest).request(Operation::Eq, &NetMath(0)),
            Stage::Squaring { i } => NetMath(i).request(Operation::Mul, &NetMath(i)),
            Stage::Bounding { square, .. } => NetMath(square).request(Operation::Cmp, &x),
            Stage::Dividing { i } => x.request(Operation::Rem, &NetMath(i)),
            Stage::DivisorCheck { rest, .. } => NetMath(rest).request(Operation::Eq, &NetMath(0)),
            Stage::Stepping { i } => NetMath(i).request(Operation::Add, &NetMath(2)),
        };
        made.unwrap()
    }

    /// Goes on with the reply to the pending request.
    pub fn resume(self, reply: &Reply) -> (result: Result<Progress, ClientError>)
        ensures
            result == self.resumed(reply@),
    {
        let x = self.x;
        match self.stage {
            Stage::Halving => match NetMath::<u64>::accept(reply) {
                Ok(rest) => Ok(
                    Progress::Waiting(PrimeTest { x, stage: Stage::EvenCheck { rest: rest.0 } }),
                ),
                Err(error) => Err(error),
            },
            Stage::EvenCheck { .. } => match reply.truth() {
                Ok(zero) => if zero {
                    Ok(Progress::Verdict(false))
                } else {
                    Ok(Progress::Waiting(PrimeTest { x, stage: Stage::Squaring { i: 3 } }))
                },
                Err(error) => Err(error),
            },
            Stage::Squaring { i } => match NetMath::<u64>::accept(reply) {
                Ok(square) => Ok(
                    Progress::Waiting(
                        PrimeTest { x, stage: Stage::Bounding { i, square: square.0 } },
                    ),
                ),
                Err(error) => Err(error),
            },
            Stage::Bounding { i, .. } => match reply.order() {
                Ok(Some(Order::Greater)) => Ok(Progress::Verdict(true)),
                Ok(_) => Ok(Progress::Waiting(PrimeTest { x, stage: Stage::Dividing { i } })),
                Err(error) => Err(error),
            },
            Stage::Dividing { i } => match NetMath::<u64>::accept(reply) {
                Ok(rest) => Ok(
                    Progress::Waiting(
                        PrimeTest { x, stage: Stage::DivisorCheck { i, rest: rest.0 } },
                    ),
                ),
                Err(error) => Err(error),
            },
            Stage::DivisorCheck { i, .. } => match reply.truth() {
                Ok(zero) => if zero {
                    Ok(Progress::Verdict(false))
                } else {
                    Ok(Progress::Waiting(PrimeTest { x, stage: Stage::Stepping { i } }))
                },
                Err(error) => Err(error),
            },
            Stage::Stepping { i } => match NetMath::<u64>::accept(reply) {
                Ok(next) => Ok(
                    Progress::Waiting(PrimeTest { x, stage: Stage::Squaring { i: next.0 } }),
                ),
                Err(error) => Err(error),
            },
        }
    }
}

impl Fib {
    /// With the dispatcher as the server, the sum that a step takes in is the sum
    /// of the current number and the following one, wrapped round.
    pub proof fn lemma_sum_answered(self)
        ensures
            IntegerType::U64.holds(self.current()),
            IntegerType::U64.holds(self.following()),
            answered(
                binary_request(Operation::Add, IntegerType::U64, self.current(), self.following()),
            ).number(IntegerType::U64) == Ok::<int, ClientError>(
                IntegerType::U64.wrap(self.current() + self.following()),
            ),
    {
        lemma_round_trip(IntegerType::U64, Operation::Add, self.current(), self.following());
    }
}

impl PrimeTest {
    /// How the test goes on when the dispatcher answers the pending request: the
    /// remainders, the square and the next divisor are what the names say, the
    /// square and the next divisor wrapped round. A divisor of zero makes the
    /// server fail.
    pub open spec fn stepped(self) -> Result<Progress, ClientError> {
        let x = self.x;
        let t = IntegerType::U64;
        match self.stage {
            Stage::Halving => Ok(
                Progress::Waiting(PrimeTest { x, stage: Stage::EvenCheck { rest: (x % 2) as u64 } }),
            ),
            Stage::EvenCheck { rest } => if rest == 0 {
                Ok(Progress::Verdict(false))
            } else {
                Ok(Progress::Waiting(PrimeTest { x, stage: Stage::Squaring { i: 3 } }))
            },
            Stage::Squaring { i } => Ok(
                Progress::Waiting(
                    PrimeTest { x, stage: Stage::Bounding { i, square: t.wrap(i * i) as u64 } },
                ),
            ),
            Stage::Bounding { i, square } => if square > x {
                Ok(Progress::Verdict(true))
            } else {
                Ok(Progress::Waiting(PrimeTest { x, stage: Stage::Dividing { i } }))
            },
            Stage::Dividing { i } => if i == 0 {
                Err(ClientError::NetworkFailure { status: Some(500) })
            } else {
                Ok(
                    Progress::Waiting(
                        PrimeTest { x, stage: Stage::DivisorCheck { i, rest: (x % i) as u64 } },
                    ),
                )
            },
            Stage::DivisorCheck { i, rest } => if rest == 0 {
                Ok(Progress::Verdict(false))
            } else {
                Ok(Progress::Waiting(PrimeTest { x, stage: Stage::Stepping { i } }))
            },
            Stage::Stepping { i } => Ok(
                Progress::Waiting(
                    PrimeTest { x, stage: Stage::Squaring { i: t.wrap(i + 2) as u64 } },
                ),
            ),
        }
    }

    /// With the dispatcher as the server, every step of the test is a step of
    /// trial division.
    pub proof fn lemma_step_answered(self)
        ensures
            self.resumed(answered(self.asked())) == self.stepped(),
    {
        let t = IntegerType::U64;
        let x = self.x as int;
        match self.stage {
            Stage::Halving => lemma_round_trip(t, Operation::Rem, x, 2),
            Stage::EvenCheck { rest } => lemma_round_trip(t, Operation::Eq, rest as int, 0),
            Stage::Squaring { i } => lemma_round_trip(t, Operation::Mul, i as int, i as int),
            Stage::Bounding { square, .. } => lemma_round_trip(t, Operation::Cmp, square as int, x),
            Stage::Dividing { i } => lemma_round_trip(t, Operation::Rem, x, i as int),
            Stage::DivisorCheck { rest, .. } => lemma_round_trip(t, Operation::Eq, rest as int, 0),
            Stage::Stepping { i } => lemma_round_trip(t, Operation::Add, i as int, 2),
        }
    }
}

/// Begins the primality test of `x`: the test waits for the remainder of `x` by
/// two.
pub fn is_prime(x: NetMath<u64>) -> (test: PrimeTest)
    ensures
        test == (PrimeTest { x: x.0, stage: Stage::Halving }),
{
    PrimeTest { x: x.0, stage: Stage::Halving }
}

} // verus!
