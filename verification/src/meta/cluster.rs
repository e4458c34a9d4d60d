//! The peer client of a metadata server: whom to ask, how to read the answer, and
//! when to ask again.

use vstd::prelude::*;
use vstd::string::StringExecFns;
use crate::meta::error::Error;

verus! {

/// One entry of the key-value store.
#[derive(Debug, Clone, PartialEq, Eq)]
pub struct KeyValue {
    pub key: Vec<u8>,
    pub value: Vec<u8>,
}

/// The codes that a response header can carry in its error.
#[derive(Debug, Clone, Copy, PartialEq, Eq, Structural)]
pub enum ErrorCode {
    NoActiveDatanodes,
    NotLeader,
}

impl ErrorCode {
    pub open spec fn spec_code(self) -> i32 {
        match self {
            ErrorCode::NoActiveDatanodes => 1,
            ErrorCode::NotLeader => 2,
        }
    }

    /// The number that stands for the code on the wire.
    #[verifier::when_used_as_spec(spec_code)]
    pub fn code(self) -> (code: i32)
        ensures
            code == self.spec_code(),
    {
        match self {
            ErrorCode::NoActiveDatanodes => 1,
            ErrorCode::NotLeader => 2,
        }
    }
}

/// The error part of a response header.
#[derive(Debug, Clone, PartialEq, Eq)]
pub struct ResponseError {
    pub code: i32,
    pub err_msg: String,
}

#[derive(Debug, Clone, PartialEq, Eq)]
pub struct ResponseHeader {
    pub protocol_version: u64,
    pub cluster_id: u64,
    pub error: Option<ResponseError>,
}

impl Default for ResponseHeader {
    fn default() -> (header: ResponseHeader)
        ensures
            header.protocol_version == 0,
            header.cluster_id == 0,
            header.error is None,
    {
        ResponseHeader { protocol_version: 0, cluster_id: 0, error: None }
    }
}

impl ResponseHeader {
    /// Whether the header says that the answering node is not the leader.
    pub open spec fn not_leader(&self) -> bool {
        self.error matches Some(error) && error.code == ErrorCode::NotLeader.spec_code()
    }

    #[verifier::when_used_as_spec(not_leader)]
    pub fn is_not_leader(&self) -> (not_leader: bool)
        ensures
            not_leader == self.not_leader(),
    {
        match &self.error {
            Some(error) => error.code == ErrorCode::NotLeader.code(),
            None => false,
        }
    }
}

/// Where a response came from.
pub struct Context<'a> {
    pub addr: &'a str,
}

/// Accepts a response by its header: the header must be there, and must not say
/// that the node asked is not the leader.
pub fn check_resp_header(header: &Option<ResponseHeader>, ctx: Context) -> (checked: Result<
    (),
    Error,
>)
    ensures
        header matches Some(h) && !h.not_leader() ==> checked is Ok,
        header is None ==> checked == Err::<(), Error>(Error::ResponseHeaderNotFound),
        header matches Some(h) && h.not_leader() ==> checked is Err && is_not_leader_at(
            checked->Err_0,
            ctx.addr@,
        ),
{
    match header {
        None => Err(Error::ResponseHeaderNotFound),
        Some(header) => {
            if header.is_not_leader() {
                Err(Error::IsNotLeader { node_addr: String::from_str(ctx.addr) })
            } else {
                Ok(())
            }
        },
    }
}

/// Whether `error` says that the node at `addr` is not the leader.
pub open spec fn is_not_leader_at(error: Error, addr: Seq<char>) -> bool {
    error matches Error::IsNotLeader { node_addr } && node_addr@ == addr
}

/// The entries of a response from the node at `addr`, if its header is accepted.
pub fn checked_kvs(header: &Option<ResponseHeader>, kvs: Vec<KeyValue>, addr: &str) -> (checked:
    Result<Vec<KeyValue>, Error>)
    ensures
        header matches Some(h) && !h.not_leader() ==> checked == Ok::<Vec<KeyValue>, Error>(kvs),
        header is None ==> checked == Err::<Vec<KeyValue>, Error>(Error::ResponseHeaderNotFound),
        header matches Some(h) && h.not_leader() ==> checked is Err && is_not_leader_at(
            checked->Err_0,
            addr@,
        ),
{
    match check_resp_header(header, Context { addr }) {
        Ok(()) => Ok(kvs),
        Err(error) => Err(error),
    }
}

/// Whether a call that failed with `error` is worth another attempt.
pub open spec fn retryable(error: Error) -> bool {
    match error {
        Error::IsNotLeader { .. } => true,
        Error::Range { source } => source.io_error,
        Error::BatchGet { source } => source.io_error,
        _ => false,
    }
}

/// Whether a call that failed with `error` is worth another attempt: the node
/// asked was not the leader, or the remote call broke on an I/O error.
pub fn need_retry(error: &Error) -> (retry: bool)
    ensures
        retry == retryable(*error),
{
    match error {
        Error::IsNotLeader { .. } => true,
        Error::Range { source } => source.io_error,
        Error::BatchGet { source } => source.io_error,
        _ => false,
    }
}

/// Where a request is answered.
#[derive(Debug, Clone, Copy, PartialEq, Eq, Structural)]
pub enum Route {
    /// By this node's own in-memory store.
    Local,
    /// By the leader, over the network.
    Remote,
}

/// What follows a remote call.
#[derive(Debug, PartialEq, Eq)]
pub enum Attempt<T> {
    /// The request is over, with this result.
    Finished(Result<T, Error>),
    /// Wait, then ask again.
    RetryAfter { millis: u64 },
}

/// The rules by which a metadata server reads from the leader's in-memory store.
#[derive(Debug, Clone, Copy, PartialEq, Eq, Structural)]
pub struct MetaPeerClient {
    pub max_retry_count: usize,
    pub retry_interval_ms: u64,
}

impl Default for MetaPeerClient {
    fn default() -> (client: MetaPeerClient)
        ensures
            client.max_retry_count == 3,
            client.retry_interval_ms == 1000,
    {
        MetaPeerClient { max_retry_count: 3, retry_interval_ms: 1000 }
    }
}

impl MetaPeerClient {
    /// Whether this node counts as the leader: it does where there is no election,
    /// and else where the election says so.
    pub fn is_leader(&self, election: Option<bool>) -> (leader: bool)
        ensures
            leader == (election matches Some(elected) ==> elected),
    {
        match election {
            Some(elected) => elected,
            None => true,
        }
    }

    /// Where a request is answered: locally by the leader, remotely otherwise.
    pub fn route(&self, election: Option<bool>) -> (route: Route)
        ensures
            election == Some(false) ==> route == Route::Remote,
            election != Some(false) ==> route == Route::Local,
    {
        if self.is_leader(election) {
            Route::Local
        } else {
            Route::Remote
        }
    }

    /// Admits the next remote call of `func_name` after `attempts` calls were
    /// made: there are `max_retry_count` calls at most.
    pub fn before_call(&self, func_name: &str, attempts: usize) -> (admitted: Result<(), Error>)
        ensures
            attempts < self.max_retry_count ==> admitted is Ok,
            attempts >= self.max_retry_count ==> admitted is Err && is_retry_limit(
                admitted->Err_0,
                func_name@,
                self.max_retry_count,
            ),
    {
        if attempts < self.max_retry_count {
            Ok(())
        } else {
            Err(
                Error::ExceededRetryLimit {
                    func_name: String::from_str(func_name),
                    retry_num: self.max_retry_count,
                },
            )
        }
    }

    /// Decides what follows a remote call that ended in `outcome`: a result ends
    /// the request, and so does an error that is not worth another attempt; after
    /// any other error the client waits `retry_interval_ms` and asks again.
    pub fn after_call<T>(&self, outcome: Result<T, Error>) -> (next: Attempt<T>)
        ensures
            outcome matches Err(error) && retryable(error) ==> next == (Attempt::<T>::RetryAfter {
                millis: self.retry_interval_ms,
            }),
            !(outcome matches Err(error) && retryable(error)) ==> next == Attempt::Finished(
                outcome,
            ),
    {
        match outcome {
            Ok(value) => Attempt::Finished(Ok(value)),
            Err(error) => {
                if need_retry(&error) {
                    Attempt::RetryAfter { millis: self.retry_interval_ms }
                } else {
                    Attempt::Finished(Err(error))
                }
            },
        }
    }
}

/// Whether `error` says that `func_name` used up its `retry_num` attempts.
pub open spec fn is_retry_limit(error: Error, func_name: Seq<char>, retry_num: usize) -> bool {
    error matches Error::ExceededRetryLimit { func_name: name, retry_num: num } && name@
        == func_name && num == retry_num
}

} // verus!
