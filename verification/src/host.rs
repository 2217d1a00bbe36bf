use crate::error::Error;
use crate::value::{Signature, Value};
use vstd::prelude::*;

verus! {

/// What a host-runtime function does when invoked, as the model records it.
/// The host is deterministic: the behaviour and the argument fix the
/// settlement of the token the invocation produces.
#[derive(Debug, PartialEq, Eq)]
pub enum Behavior {
    /// Resolves with the argument itself.
    EchoArg,
    /// Resolves with the integer argument plus a constant; rejects with the
    /// argument when it is not an integer or when the sum leaves the integer
    /// range.
    AddInt(i64),
    /// Resolves with a fixed value, whatever the argument.
    ConstResolve(Value),
    /// Rejects with a fixed payload.
    RejectWith(Value),
    /// Raises synchronously during the invocation itself: the call fails
    /// before any token exists.
    ThrowSync(Value),
}

/// How a pending result token settles: exactly once, to one of these.
#[derive(Debug, PartialEq, Eq)]
pub enum Settlement {
    Resolve(Value),
    Reject(Value),
}

/// A callable owned by the host runtime: its behaviour, the host event-loop
/// time between invocation and settlement of its token, and the argument and
/// return types it declares.
#[derive(Debug, PartialEq, Eq)]
pub struct HostFn {
    pub behavior: Behavior,
    pub latency: u64,
    pub sig: Signature,
}

/// A named property of a container object: a callable, or plain data that
/// cannot be invoked.
#[derive(Debug, PartialEq, Eq)]
pub enum Slot {
    Callable(HostFn),
    Data(Value),
}

/// One named property of a container object.
#[derive(Debug, PartialEq, Eq)]
pub struct HostEntry {
    pub name: String,
    pub slot: Slot,
}

/// A container object owned by the host runtime: named properties, looked up
/// first match wins.
#[derive(Debug, PartialEq, Eq)]
pub struct HostObject {
    pub entries: Vec<HostEntry>,
}

/// The state of a Pending Result Token. It transitions exactly once, from
/// `Pending` to either terminal state, driven by the host's own scheduler.
#[derive(Debug, PartialEq, Eq)]
pub enum TokenState {
    Pending,
    Resolved(Value),
    Rejected(Value),
}

/// A Pending Result Token. The host is modelled deterministically, so the
/// settlement its scheduler will deliver is fixed when the token is created
/// (`outcome`) and revealed to the waiting task once the event loop reaches
/// `ready_at`.
#[derive(Debug, PartialEq, Eq)]
pub struct Token {
    pub state: TokenState,
    pub ready_at: u64,
    pub outcome: Settlement,
}

/// The host runtime's single execution context: its event-loop clock and the
/// arena of tokens for the calls in flight. Each invocation owns one token;
/// no state is shared between them.
pub struct Host {
    pub now: u64,
    pub tokens: Vec<Token>,
}

/// The settlement a callable's behaviour produces for an argument. For a
/// behaviour that throws synchronously no token is ever created, so this is
/// never consulted for it; see `call_outcome`.
pub open spec fn settlement_of(b: Behavior, arg: Value) -> Settlement {
    match b {
        Behavior::EchoArg => Settlement::Resolve(arg),
        Behavior::AddInt(k) => match arg {
            Value::Int(n) => if i64::MIN <= n + k <= i64::MAX {
                Settlement::Resolve(Value::Int((n + k) as i64))
            } else {
                Settlement::Reject(arg)
            },
            _ => Settlement::Reject(arg),
        },
        Behavior::ConstResolve(v) => Settlement::Resolve(v),
        Behavior::RejectWith(p) => Settlement::Reject(p),
        Behavior::ThrowSync(p) => Settlement::Reject(p),
    }
}

/// What invoking a callable returns synchronously: an invocation error when
/// the host raises during the call itself, otherwise the settlement the new
/// token is scheduled to receive.
pub open spec fn call_outcome(f: HostFn, arg: Value) -> Result<Settlement, Error> {
    match f.behavior {
        Behavior::ThrowSync(p) => Err(Error::Invocation { payload: p }),
        _ => Ok(settlement_of(f.behavior, arg)),
    }
}

/// The terminal token state a settlement produces.
pub open spec fn settled_state(s: Settlement) -> TokenState {
    match s {
        Settlement::Resolve(v) => TokenState::Resolved(v),
        Settlement::Reject(p) => TokenState::Rejected(p),
    }
}

impl Clone for Settlement {
    fn clone(&self) -> (res: Self)
        ensures
            res == *self,
    {
        match self {
            Settlement::Resolve(v) => Settlement::Resolve(v.clone()),
            Settlement::Reject(p) => Settlement::Reject(p.clone()),
        }
    }
}

impl Clone for Behavior {
    fn clone(&self) -> (res: Self)
        ensures
            res == *self,
    {
        match self {
            Behavior::EchoArg => Behavior::EchoArg,
            Behavior::AddInt(k) => Behavior::AddInt(*k),
            Behavior::ConstResolve(v) => Behavior::ConstResolve(v.clone()),
            Behavior::RejectWith(p) => Behavior::RejectWith(p.clone()),
            Behavior::ThrowSync(p) => Behavior::ThrowSync(p.clone()),
        }
    }
}

impl Clone for HostFn {
    fn clone(&self) -> (res: Self)
        ensures
            res == *self,
    {
        HostFn { behavior: self.behavior.clone(), latency: self.latency, sig: self.sig }
    }
}

impl Token {
    /// A settled token reports exactly the settlement that was scheduled for
    /// it when the call was invoked: it cannot settle a second time or to
    /// anything else.
    pub open spec fn wf(self) -> bool {
        match self.state {
            TokenState::Pending => true,
            TokenState::Resolved(v) => self.outcome == Settlement::Resolve(v),
            TokenState::Rejected(p) => self.outcome == Settlement::Reject(p),
        }
    }
}

impl Host {
    /// Every token settles only to its scheduled outcome, and a settled
    /// token's resumption time has passed: settlement happens-before the
    /// waiting task observes it.
    pub open spec fn wf(self) -> bool {
        forall|i: int|
            0 <= i < self.tokens@.len() ==> {
                &&& (#[trigger] self.tokens@[i]).wf()
                &&& (!(self.tokens@[i].state is Pending) ==> self.tokens@[i].ready_at <= self.now)
            }
    }

    /// A fresh host context: the event loop at time zero, no call in flight.
    pub fn new() -> (h: Host)
        ensures
            h.wf(),
            h.now == 0,
            h.tokens@.len() == 0,
    {
        Host { now: 0, tokens: Vec::new() }
    }

    /// Invoke a callable with an argument. The call returns immediately: on an
    /// invocation error the host is left untouched, otherwise a fresh Pending
    /// Result Token is created, scheduled to settle `f.latency` ticks from
    /// now, and its index is returned. Existing tokens are never touched, so
    /// concurrent invocations stay independent.
    pub fn invoke(&mut self, f: &HostFn, arg: Value) -> (r: Result<usize, Error>)
        requires
            old(self).wf(),
            old(self).now + f.latency <= u64::MAX,
        ensures
            final(self).wf(),
            final(self).now == old(self).now,
            match call_outcome(*f, arg) {
                Err(e) => r == Err::<usize, Error>(e) && *final(self) == *old(self),
                Ok(s) => {
                    &&& r matches Ok(id) && id == old(self).tokens@.len()
                    &&& final(self).tokens@ == old(self).tokens@.push(
                        (Token {
                            state: TokenState::Pending,
                            ready_at: (old(self).now + f.latency) as u64,
                            outcome: s,
                        }),
                    )
                },
            },
    {
        let settlement = match &f.behavior {
            Behavior::ThrowSync(p) => {
                return Err(Error::Invocation { payload: p.clone() });
            },
            Behavior::EchoArg => Settlement::Resolve(arg),
            Behavior::AddInt(k) => match arg {
                Value::Int(n) => {
                    if (*k >= 0 && n <= i64::MAX - *k) || (*k < 0 && n >= i64::MIN - *k) {
                        Settlement::Resolve(Value::Int(n + *k))
                    } else {
                        Settlement::Reject(Value::Int(n))
                    }
                },
                other => Settlement::Reject(other),
            },
            Behavior::ConstResolve(v) => Settlement::Resolve(v.clone()),
            Behavior::RejectWith(p) => Settlement::Reject(p.clone()),
        };
        let ready = self.now + f.latency;
        let id = self.tokens.len();
        self.tokens.push(Token { state: TokenState::Pending, ready_at: ready, outcome: settlement });
        Ok(id)
    }

    /// Suspend on a pending token until the host's event loop settles it:
    /// the clock advances to the token's settlement time (never backwards),
    /// the token transitions exactly once to its scheduled outcome, every
    /// other token is left untouched, and the settlement is handed back.
    pub fn await_token(&mut self, id: usize) -> (s: Settlement)
        requires
            old(self).wf(),
            id < old(self).tokens@.len(),
            old(self).tokens@[id as int].state is Pending,
        ensures
            final(self).wf(),
            s == old(self).tokens@[id as int].outcome,
            final(self).now == (if old(self).now >= old(self).tokens@[id as int].ready_at {
                old(self).now
            } else {
                old(self).tokens@[id as int].ready_at
            }),
            final(self).tokens@.len() == old(self).tokens@.len(),
            final(self).tokens@[id as int] == (Token {
                state: settled_state(s),
                ready_at: old(self).tokens@[id as int].ready_at,
                outcome: s,
            }),
            forall|j: int|
                0 <= j < old(self).tokens@.len() && j != id ==> final(self).tokens@[j] == old(
                    self,
                ).tokens@[j],
    {
        let ready = self.tokens[id].ready_at;
        if self.now < ready {
            self.now = ready;
        }
        let outcome = self.tokens[id].outcome.clone();
        let settled = match &outcome {
            Settlement::Resolve(v) => TokenState::Resolved(v.clone()),
            Settlement::Reject(p) => TokenState::Rejected(p.clone()),
        };
        let second = outcome.clone();
        self.tokens.set(id, Token { state: settled, ready_at: ready, outcome: second });
        outcome
    }
}

} // verus!
