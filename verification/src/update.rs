//! What the update machinery hands the frontend: the description of an
//! available update, and the accumulator behind download-progress reports.

use vstd::prelude::*;

verus! {

/// Description of an available update, as reported to the frontend.
pub struct UpdateInfo {
    pub version: String,
    pub date: Option<String>,
    pub body: Option<String>,
}

/// The running state of an update download: the bytes received so far and
/// the total announced for the download, with zero standing for a total not
/// yet known.
pub struct DownloadProgress {
    pub downloaded: u64,
    pub content_length: u64,
}

/// The whole-number percentage a progress report carries: the share of the
/// announced total that has been received, zero while no total is known,
/// and never above one hundred.
pub open spec fn percent_spec(downloaded: u64, content_length: u64) -> int {
    if content_length == 0 {
        0
    } else if downloaded >= content_length {
        100
    } else {
        (downloaded * 100) / (content_length as int)
    }
}

impl DownloadProgress {
    /// The state before any chunk has arrived.
    pub fn new() -> (r: Self)
        ensures
            r.downloaded == 0,
            r.content_length == 0,
    {
        DownloadProgress { downloaded: 0, content_length: 0 }
    }

    /// Records one downloaded chunk, and the announced total where the
    /// notification carries one. The byte count saturates rather than wrap.
    pub fn on_chunk(&mut self, chunk_length: usize, content_len: Option<u64>)
        ensures
            final(self).downloaded == if old(self).downloaded + chunk_length <= u64::MAX {
                old(self).downloaded + chunk_length
            } else {
                u64::MAX as int
            },
            final(self).content_length == (match content_len {
                Some(l) => l,
                None => old(self).content_length,
            }),
    {
        self.downloaded = self.downloaded.saturating_add(chunk_length as u64);
        if let Some(l) = content_len {
            self.content_length = l;
        }
    }

    /// The percentage to report for the current state.
    pub fn percent(&self) -> (p: u64)
        ensures
            p == percent_spec(self.downloaded, self.content_length),
            p <= 100,
    {
        if self.content_length == 0 {
            0
        } else if self.downloaded >= self.content_length {
            100
        } else {
            let scaled: u128 = (self.downloaded as u128) * 100 / (self.content_length as u128);
            proof {
                assert((self.downloaded * 100) / (self.content_length as int) < 100)
                    by (nonlinear_arith)
                    requires
                        self.downloaded < self.content_length,
                        self.content_length > 0,
                ;
            }
            scaled as u64
        }
    }
}

} // verus!
