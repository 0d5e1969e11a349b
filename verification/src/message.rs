//! The envelope of one delivered record.

use vstd::prelude::*;

verus! {

/// One event of the session's queue: a reference to a delivered record with
/// its position and its delivery status.
///
/// `record` identifies the record inside the session, which owns its memory;
/// `err` is the delivery status, a response code.
#[derive(Debug, Clone, PartialEq, Eq)]
pub struct Message {
    pub record: u64,
    pub err: i32,
    pub topic: String,
    pub partition: i32,
    pub offset: i64,
}

impl Message {
    /// The offset that a commit of this message stores: that of the next
    /// record to read.
    pub open spec fn spec_commit_offset(&self) -> int {
        self.offset + 1
    }

    /// The offset that a commit of this message stores, where an `i64` holds it.
    pub fn commit_offset(&self) -> (r: Option<i64>)
        ensures
            r.is_some() <==> self.spec_commit_offset() <= i64::MAX,
            r.is_some() ==> r.unwrap() == self.spec_commit_offset(),
    {
        self.offset.checked_add(1)
    }
}

} // verus!
