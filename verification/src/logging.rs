//! Size bookkeeping of the rotating log file: a file that would grow past
//! its limit is moved aside and a fresh one is started.

use vstd::prelude::*;

verus! {

/// Size at which the log file is rotated, in bytes.
pub const MAX_LOG_BYTES: u64 = 2 * 1024 * 1024;

/// The size of the current log file and its limit.
pub struct LogBudget {
    pub size: u64,
    pub limit: u64,
}

impl LogBudget {
    /// A file of `size` bytes, rotated beyond `limit` bytes.
    pub fn new(size: u64, limit: u64) -> (r: LogBudget)
        ensures
            r.size == size,
            r.limit == limit,
    {
        LogBudget { size, limit }
    }

    /// Whether writing `len` more bytes must first rotate the file: only a
    /// file that is not empty, and only when the write would pass the limit.
    pub fn needs_rotation(&self, len: usize) -> (r: bool)
        requires
            self.size + len <= u64::MAX,
        ensures
            r == (self.size > 0 && self.size + len > self.limit),
    {
        self.size > 0 && self.size + len as u64 > self.limit
    }

    /// Records that the file was rotated: the fresh file is empty.
    pub fn rotated(&mut self)
        ensures
            final(self).size == 0,
            final(self).limit == old(self).limit,
    {
        self.size = 0;
    }

    /// Records `written` more bytes.
    pub fn wrote(&mut self, written: usize)
        requires
            old(self).size + written <= u64::MAX,
        ensures
            final(self).size == old(self).size + written,
            final(self).limit == old(self).limit,
    {
        self.size = self.size + written as u64;
    }
}

/// The size after writing `len` bytes to a file of `size` bytes, rotating
/// first when needed.
pub open spec fn size_after_write(size: u64, len: nat, limit: u64) -> nat {
    if size > 0 && size + len > limit {
        len
    } else {
        (size + len) as nat
    }
}

/// A file never grows past its limit except by a single write that is
/// larger than the limit on its own, which then fills a fresh file.
pub proof fn law_log_stays_within_limit(size: u64, len: nat, limit: u64)
    ensures
        size_after_write(size, len, limit) <= limit || size_after_write(size, len, limit) == len,
{
}

} // verus!
