//! Response codes of the broker session and the errors of this crate.

use vstd::prelude::*;

verus! {

/// The session's code for success.
pub const RESP_ERR_NO_ERROR: i32 = 0;

/// The session's code for reaching the end of a partition's available data.
pub const RESP_ERR_PARTITION_EOF: i32 = -191;

/// The session's code for a rebalance that assigns partitions.
pub const RESP_ERR_ASSIGN_PARTITIONS: i32 = -175;

/// The session's code for a rebalance that revokes the partitions held.
pub const RESP_ERR_REVOKE_PARTITIONS: i32 = -174;

/// Whether a response code reports a failure: every code but
/// [`RESP_ERR_NO_ERROR`] does.
pub open spec fn spec_is_error(code: i32) -> bool {
    code != RESP_ERR_NO_ERROR
}

/// Whether a response code reports a failure.
pub fn is_error(code: i32) -> (r: bool)
    ensures
        r == spec_is_error(code),
{
    code != RESP_ERR_NO_ERROR
}

/// What the session answers to a request that can be rejected: a response
/// code and the session's human-readable text for that code.
#[derive(Debug, Clone, PartialEq, Eq)]
pub struct DriverStatus {
    pub code: i32,
    pub diagnostic: String,
}

/// The errors a consumer reports.
#[derive(Debug, Clone, PartialEq, Eq)]
pub enum KafkaError {
    /// The session could not be established; carries the session's text.
    ClientCreation(String),
    /// A subscription or an assignment was rejected; carries the session's text.
    Subscription(String),
    /// The end of a partition was reached: routine, not a failure.
    PartitionEof,
    /// Any other delivery or commit failure; carries the response code.
    MessageConsumption(i32),
}

pub type KafkaResult<T> = Result<T, KafkaError>;

impl KafkaError {
    /// Whether this is the routine end-of-partition signal.
    pub open spec fn spec_is_partition_eof(&self) -> bool {
        *self == KafkaError::PartitionEof
    }

    /// Whether this is the routine end-of-partition signal.
    pub fn is_partition_eof(&self) -> (r: bool)
        ensures
            r == self.spec_is_partition_eof(),
    {
        match self {
            KafkaError::PartitionEof => true,
            _ => false,
        }
    }
}

} // verus!
