//! The callback-to-future bridge for one-shot native query calls. The bridge
//! is a state machine: a pending future asks the runtime adapter to issue
//! the native call on its first poll and waits on later polls; the native
//! callback writes the result handle and status code and sets the done flag
//! exactly once; after that, every poll reports the same settled result
//! without re-issuing the call.

use vstd::prelude::*;

use crate::error::RawError;

verus! {

/// Opaque handle to a native connection.
#[derive(Debug, Clone, Copy, PartialEq, Eq, Structural)]
pub struct RawTaos(pub u64);

/// Opaque handle to a native result set.
#[derive(Debug, Clone, Copy, PartialEq, Eq, Structural)]
pub struct RawRes(pub u64);

impl RawRes {
    /// The outcome of a completed native call: the handle on status zero,
    /// otherwise the status code as a driver error.
    pub open spec fn spec_from_ptr_with_code(result: u64, code: i32) -> Result<RawRes, RawError> {
        if code == 0 {
            Ok(RawRes(result))
        } else {
            Err(RawError { code: Some(code), message: None })
        }
    }

    /// See [`RawRes::spec_from_ptr_with_code`].
    pub fn from_ptr_with_code(result: u64, code: i32) -> (r: Result<RawRes, RawError>)
        ensures
            r == Self::spec_from_ptr_with_code(result, code),
    {
        if code == 0 {
            Ok(RawRes(result))
        } else {
            Err(RawError::from_code(code))
        }
    }
}

/// Shared state between the future and the native callback: the result
/// handle, the status code, and the completion flag. The consumer trusts
/// handle and code only after observing the flag.
#[derive(Debug, Clone, Copy, PartialEq, Eq, Structural)]
pub struct State {
    pub result: u64,
    pub code: i32,
    pub done: bool,
}

/// What one poll of a pending future asks of the runtime adapter.
#[derive(Debug)]
pub enum QueryPoll {
    /// The call has settled; this is its final result, the same on every
    /// later poll.
    Ready(Result<RawRes, RawError>),
    /// First pre-completion poll: the adapter must now issue the native call
    /// and route its callback to [`QueryFuture::complete`].
    Issue,
    /// Later pre-completion poll: the callback has not fired yet; wait.
    Wait,
}

/// A one-shot native query call exposed as a pollable operation. Each
/// instance issues at most one native call over its lifetime.
#[derive(Debug)]
pub struct QueryFuture {
    pub raw: RawTaos,
    pub sql: String,
    pub state: State,
    pub issued: bool,
}

impl QueryFuture {
    /// One poll as a function of the current state: a settled future reports
    /// its result and changes nothing; the first pre-completion poll marks
    /// the call issued; later pre-completion polls change nothing and wait.
    pub open spec fn spec_poll(s: QueryFuture) -> (QueryFuture, QueryPoll) {
        if s.state.done {
            (s, QueryPoll::Ready(RawRes::spec_from_ptr_with_code(s.state.result, s.state.code)))
        } else if !s.issued {
            (
                QueryFuture { raw: s.raw, sql: s.sql, state: s.state, issued: true },
                QueryPoll::Issue,
            )
        } else {
            (s, QueryPoll::Wait)
        }
    }

    /// The callback's write: handle and code stored, the done flag set.
    pub open spec fn spec_complete(s: QueryFuture, result: u64, code: i32) -> QueryFuture {
        QueryFuture {
            raw: s.raw,
            sql: s.sql,
            state: State { result, code, done: true },
            issued: s.issued,
        }
    }

    /// A fresh pending call for the given connection and statement text:
    /// empty result, status zero, not done, no native call issued yet.
    pub fn new(taos: RawTaos, sql: String) -> (r: QueryFuture)
        ensures
            r.raw == taos,
            r.sql == sql,
            r.state == (State { result: 0u64, code: 0i32, done: false }),
            !r.issued,
    {
        QueryFuture { raw: taos, sql, state: State { result: 0, code: 0, done: false }, issued: false }
    }

    /// Polls the bridge; see [`QueryFuture::spec_poll`]. Re-polling after the
    /// callback has fired returns the same settled result without re-issuing
    /// the native call.
    pub fn poll(&mut self) -> (r: QueryPoll)
        ensures
            *final(self) == Self::spec_poll(*old(self)).0,
            r == Self::spec_poll(*old(self)).1,
    {
        if self.state.done {
            QueryPoll::Ready(RawRes::from_ptr_with_code(self.state.result, self.state.code))
        } else if !self.issued {
            self.issued = true;
            QueryPoll::Issue
        } else {
            QueryPoll::Wait
        }
    }

    /// The native callback's arrival: stores the result handle and status
    /// code and sets the done flag, exactly once per issued call.
    pub fn complete(&mut self, result: u64, code: i32)
        requires
            old(self).issued,
            !old(self).state.done,
        ensures
            *final(self) == Self::spec_complete(*old(self), result, code),
    {
        self.state.result = result;
        self.state.code = code;
        self.state.done = true;
    }

    /// Whether the callback has fired.
    pub fn done(&self) -> (r: bool)
        ensures
            r == self.state.done,
    {
        self.state.done
    }
}

/// The bridge protocol: before completion, a future asks for its native call
/// exactly once however often it is polled; once the callback has fired with
/// a handle and status zero, every later poll observes the same successful
/// result and changes nothing.
pub proof fn lemma_callback_protocol(s: QueryFuture, h: u64)
    requires
        !s.state.done,
        !s.issued,
    ensures
        ({
            let (s1, a1) = QueryFuture::spec_poll(s);
            let (s2, a2) = QueryFuture::spec_poll(s1);
            let sc = QueryFuture::spec_complete(s2, h, 0);
            let (s3, a3) = QueryFuture::spec_poll(sc);
            let (s4, a4) = QueryFuture::spec_poll(s3);
            &&& a1 is Issue
            &&& a2 is Wait && s2 == s1
            &&& a3 == QueryPoll::Ready(Ok::<RawRes, RawError>(RawRes(h))) && s3 == sc
            &&& a4 == a3 && s4 == s3
        }),
{
}

} // verus!
