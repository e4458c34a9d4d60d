//! Failures of the metadata server's calls to its peers.

use vstd::prelude::*;

verus! {

/// What the client keeps of a failed remote call.
#[derive(Debug, Clone, PartialEq, Eq)]
pub struct RpcStatus {
    /// Status code of the call.
    pub code: i32,
    pub message: String,
    /// Whether an I/O error is among the causes of the failure.
    pub io_error: bool,
}

/// Why a request to the leader's store did not give entries.
#[derive(Debug, Clone, PartialEq, Eq)]
pub enum Error {
    /// The node that was asked is not the leader.
    IsNotLeader { node_addr: String },
    /// A response came without a header.
    ResponseHeaderNotFound,
    /// No channel to the leader could be created.
    CreateChannel { reason: String },
    /// The remote range call failed.
    Range { source: RpcStatus },
    /// The remote batch-get call failed.
    BatchGet { source: RpcStatus },
    /// Every allowed attempt of `func_name` was used up.
    ExceededRetryLimit { func_name: String, retry_num: usize },
}

} // verus!
