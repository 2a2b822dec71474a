//! Progress of a download: the running byte count and the percentage that
//! each progress report carries.

use vstd::prelude::*;

verus! {

/// One progress report: bytes received so far, expected total (0 when the
/// server did not say), and the percentage shown.
#[derive(Debug, Clone, Copy, PartialEq, Eq)]
pub struct ProgressEvent {
    pub downloaded: u64,
    pub total: u64,
    pub percentage: u8,
}

/// The percentage reported after `downloaded` of `total` bytes: the whole
/// percentage rounded down, kept to its low eight bits as a `u8`; 0 when the
/// total is unknown.
pub open spec fn percentage_spec(downloaded: u64, total: u64) -> u8 {
    if total > 0 {
        ((downloaded * 100) / (total as int)) as u8
    } else {
        0
    }
}

/// The counting state of a download in progress.
#[derive(Debug, Clone, Copy, PartialEq, Eq)]
pub struct DownloadProgress {
    pub downloaded: u64,
    pub total: u64,
}

impl DownloadProgress {
    /// Starts counting a download whose response announced `content_length`
    /// bytes (an unknown length counts as 0).
    pub fn new(content_length: Option<u64>) -> (p: DownloadProgress)
        ensures
            p.downloaded == 0,
            p.total == match content_length {
                Some(n) => n,
                None => 0,
            },
    {
        let total = match content_length {
            Some(n) => n,
            None => 0,
        };
        DownloadProgress { downloaded: 0, total }
    }

    /// Whether a chunk of `chunk_len` bytes can be counted without the count
    /// (or the count times 100, when the total is known) leaving `u64`.
    pub open spec fn can_record_spec(&self, chunk_len: u64) -> bool {
        &&& self.downloaded + chunk_len <= u64::MAX
        &&& self.total > 0 ==> (self.downloaded + chunk_len) * 100 <= u64::MAX
    }

    /// Whether `record_chunk` may be called with a chunk of `chunk_len` bytes.
    pub fn can_record(&self, chunk_len: u64) -> (r: bool)
        ensures
            r == self.can_record_spec(chunk_len),
    {
        if chunk_len > u64::MAX - self.downloaded {
            false
        } else if self.total > 0 {
            self.downloaded + chunk_len <= u64::MAX / 100
        } else {
            true
        }
    }

    /// Counts a received chunk and returns the progress report for it.
    pub fn record_chunk(&mut self, chunk_len: u64) -> (ev: ProgressEvent)
        requires
            old(self).can_record_spec(chunk_len),
        ensures
            final(self).downloaded == old(self).downloaded + chunk_len,
            final(self).total == old(self).total,
            ev.downloaded == final(self).downloaded,
            ev.total == final(self).total,
            ev.percentage == percentage_spec(final(self).downloaded, final(self).total),
    {
        self.downloaded = self.downloaded + chunk_len;
        let percentage: u8 = if self.total > 0 {
            #[verifier::truncate]
            ((self.downloaded * 100 / self.total) as u8)
        } else {
            0
        };
        ProgressEvent { downloaded: self.downloaded, total: self.total, percentage }
    }

    /// The final report once the body has been read: always 100 percent.
    pub fn finish(&self) -> (ev: ProgressEvent)
        ensures
            ev.downloaded == self.downloaded,
            ev.total == self.total,
            ev.percentage == 100,
    {
        ProgressEvent { downloaded: self.downloaded, total: self.total, percentage: 100 }
    }
}

/// While no more than the announced total has arrived, the percentage is the
/// exact whole percentage and never above 100.
pub proof fn law_percentage_within_bounds(downloaded: u64, total: u64)
    requires
        total > 0,
        downloaded <= total,
        downloaded * 100 <= u64::MAX,
    ensures
        percentage_spec(downloaded, total) as int == (downloaded * 100) / (total as int),
        percentage_spec(downloaded, total) <= 100,
        downloaded == total ==> percentage_spec(downloaded, total) == 100,
{
    assert((downloaded * 100) / (total as int) <= 100) by (nonlinear_arith)
        requires
            total > 0,
            downloaded <= total,
    ;
    assert(0 <= (downloaded * 100) / (total as int)) by (nonlinear_arith)
        requires
            total > 0,
            downloaded >= 0,
    ;
    if downloaded == total {
        assert((total * 100) / (total as int) == 100) by (nonlinear_arith)
            requires
                total > 0,
        ;
    }
}

} // verus!
