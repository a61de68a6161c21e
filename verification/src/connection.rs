//! The connection model: a session is the sequence of request/response
//! exchanges the backing store will serve next.  Anything that behaves
//! like a connection implements [`ConnectionLike`], so the same `get`
//! and `set` logic runs unmodified against the production handle, the
//! pooled lease, or a test mock.

use vstd::prelude::*;

use crate::common::CacheError;
use crate::protocol::{
    Command, CommandView, Value, ValueView, command_eq, spec_decode_u64, spec_decode_unit,
    u64_digits, lemma_u64_digits_round_trip,
};

verus! {

/// What the store serves next over a session: each exchange pairs the
/// command the store expects with the response it will give.
pub type Script = Seq<(CommandView, ValueView)>;

/// One request over a session: the head exchange is consumed; the
/// scripted response comes back when the command is the expected one,
/// and an error response otherwise (an exhausted session only errors).
pub open spec fn spec_req(pending: Script, cmd: CommandView) -> (Script, ValueView) {
    if pending.len() == 0 {
        (pending, ValueView::ServerError)
    } else if pending[0].0 == cmd {
        (pending.skip(1), pending[0].1)
    } else {
        (pending.skip(1), ValueView::ServerError)
    }
}

/// A read: one `Get` request, its response collapsed to the stored
/// value or `FailedQuery`.
pub open spec fn spec_get(pending: Script, key: Seq<char>) -> (Script, Result<u64, CacheError>) {
    let step = spec_req(pending, CommandView::Get { key });
    (step.0, spec_decode_u64(step.1))
}

/// A write: one `SetEx` request, its response collapsed to a bare
/// success or `FailedQuery`.
pub open spec fn spec_set(
    pending: Script,
    key: Seq<char>,
    value: u64,
    expiry_seconds: u64,
) -> (Script, Result<(), CacheError>) {
    let step = spec_req(pending, CommandView::SetEx { key, value, expiry_seconds });
    (step.0, spec_decode_unit(step.1))
}

/// Anything that behaves like a connection: it can send one command
/// over its session and hand back the store's response.
pub trait ConnectionLike: Sized {
    /// The exchanges the store will serve next over this connection.
    spec fn pending(&self) -> Script;

    /// Sends one command and returns the store's response.
    fn req_command(&mut self, cmd: &Command) -> (r: Value)
        ensures
            final(self).pending() == spec_req(old(self).pending(), cmd@).0,
            r@ == spec_req(old(self).pending(), cmd@).1,
    ;
}

/// The view of an executable script as a session.
pub open spec fn script_view(script: Seq<(Command, Value)>) -> Script {
    script.map_values(|cv: (Command, Value)| (cv.0@, cv.1@))
}

/// The production connection: a clone-cheap handle to one multiplexed
/// session with the remote store, modelled by the exchanges that
/// session will serve next.
pub struct SharedConnection {
    script: Vec<(Command, Value)>,
}

/// A test-mock connection, as a mocking harness scripts it: the
/// expected commands and the responses to give, in order.
pub struct MockConnection {
    script: Vec<(Command, Value)>,
}

impl SharedConnection {
    pub fn new(script: Vec<(Command, Value)>) -> (r: SharedConnection)
        ensures
            r.pending() == script_view(script@),
    {
        SharedConnection { script }
    }
}

impl MockConnection {
    pub fn new(script: Vec<(Command, Value)>) -> (r: MockConnection)
        ensures
            r.pending() == script_view(script@),
    {
        MockConnection { script }
    }
}

impl ConnectionLike for SharedConnection {
    closed spec fn pending(&self) -> Script {
        script_view(self.script@)
    }

    fn req_command(&mut self, cmd: &Command) -> (r: Value) {
        if self.script.len() == 0 {
            return Value::ServerError;
        }
        let (expected, response) = self.script.remove(0);
        proof {
            assert(old(self).script@.remove(0) =~= old(self).script@.skip(1));
            assert(self.pending() =~= old(self).pending().skip(1));
        }
        if command_eq(&expected, cmd) {
            response
        } else {
            Value::ServerError
        }
    }
}

impl ConnectionLike for MockConnection {
    closed spec fn pending(&self) -> Script {
        script_view(self.script@)
    }

    fn req_command(&mut self, cmd: &Command) -> (r: Value) {
        if self.script.len() == 0 {
            return Value::ServerError;
        }
        let (expected, response) = self.script.remove(0);
        proof {
            assert(old(self).script@.remove(0) =~= old(self).script@.skip(1));
            assert(self.pending() =~= old(self).pending().skip(1));
        }
        if command_eq(&expected, cmd) {
            response
        } else {
            Value::ServerError
        }
    }
}

/// The response a store gives when a stored 64-bit value is read back:
/// its decimal rendering as a byte string.
pub open spec fn stored_response(value: u64) -> ValueView {
    ValueView::Data(u64_digits(value as int))
}

/// Law, for all dispatch strategies: writing `value` under `key` and
/// then reading `key` back, against a backend that acknowledges the
/// write and returns the stored value, yields exactly `value`.  Every
/// strategy's contract equals `spec_set` and `spec_get`, so the
/// mechanism of dispatch cannot change this result.
pub proof fn lemma_set_then_get_returns_value(key: Seq<char>, value: u64, expiry_seconds: u64)
    ensures
        ({
            let script = seq![
                (CommandView::SetEx { key, value, expiry_seconds }, ValueView::Okay),
                (CommandView::Get { key }, stored_response(value)),
            ];
            let write = spec_set(script, key, value, expiry_seconds);
            let read = spec_get(write.0, key);
            write.1 == Ok::<(), CacheError>(()) && read.1 == Ok::<u64, CacheError>(value)
                && read.0.len() == 0
        }),
{
    let script = seq![
        (CommandView::SetEx { key, value, expiry_seconds }, ValueView::Okay),
        (CommandView::Get { key }, stored_response(value)),
    ];
    lemma_u64_digits_round_trip(value as int);
    assert(script.skip(1)[0] == script[1]);
    assert(script.skip(1).skip(1).len() == 0);
}

/// Law: a read or a write surfaces `FailedQuery` on every malformed or
/// error response, and never any other failure kind; the underlying
/// transport error is not propagated.
pub proof fn lemma_query_errors_collapse(
    pending: Script,
    key: Seq<char>,
    value: u64,
    expiry_seconds: u64,
)
    ensures
        spec_get(pending, key).1 is Err ==> spec_get(pending, key).1 == Err::<
            u64,
            CacheError,
        >(CacheError::FailedQuery),
        spec_set(pending, key, value, expiry_seconds).1 is Err ==> spec_set(
            pending,
            key,
            value,
            expiry_seconds,
        ).1 == Err::<(), CacheError>(CacheError::FailedQuery),
{
}

} // verus!
