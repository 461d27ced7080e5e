use vstd::prelude::*;

use crate::progress::{after_line, line_updates, DownloadProgress, ProgressView};

verus! {

/// The one progress snapshot of an application. The task that runs a
/// download is its only writer; readers on other threads reach it through a
/// lock held around the whole value, so that no read sees part of an update.
pub struct DownloadState {
    pub progress: DownloadProgress,
}

impl View for DownloadState {
    type V = ProgressView;

    open spec fn view(&self) -> ProgressView {
        self.progress@
    }
}

impl DownloadState {
    /// A state whose snapshot has zero percentage and empty texts.
    pub fn new() -> (r: DownloadState)
        ensures
            r@ == (ProgressView {
                percentage_bits: 0,
                speed: Seq::empty(),
                eta: Seq::empty(),
                filename: Seq::empty(),
            }),
    {
        DownloadState { progress: DownloadProgress::new() }
    }

    /// A copy of the current snapshot.
    pub fn get_download_progress(&self) -> (r: DownloadProgress)
        ensures
            r@ == self@,
    {
        self.progress.snapshot()
    }

    /// Applies one output line of the download tool to the snapshot (see
    /// [`DownloadProgress::apply_line`]); returns the new snapshot, for
    /// observers, when the line changed it.
    pub fn record_line(&mut self, line: &str, percentage: Option<u32>) -> (r: Option<DownloadProgress>)
        ensures
            final(self)@ == after_line(old(self)@, line@, percentage),
            r is Some <==> line_updates(line@, percentage),
            r matches Some(s) ==> s@ == final(self)@,
    {
        if self.progress.apply_line(line, percentage) {
            Some(self.progress.snapshot())
        } else {
            None
        }
    }
}

/// Reading the state twice, with no update between, gives the same snapshot.
pub proof fn lemma_reads_agree(s: DownloadState, r1: DownloadProgress, r2: DownloadProgress)
    requires
        r1@ == s@,
        r2@ == s@,
    ensures
        r1@ == r2@,
{
}

} // verus!
