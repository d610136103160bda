//! The progress of a file download: how much to read next, and what to
//! report after each chunk.
use vstd::prelude::*;

use crate::constants::DownloadStatus;

verus! {

/// The most bytes read from a peer at once: half a megabyte.
pub const CHUNK_SIZE: usize = 500_000;

/// What a chunk of a download changed.
#[derive(Clone, Copy, Debug, PartialEq, Eq)]
pub enum ChunkOutcome {
    /// The whole file has arrived.
    Complete,
    /// The percentage done moved to this value.
    Progress(u8),
    /// The percentage done did not move.
    Same,
}

/// A download of `filesize` bytes, of which `downloaded` have arrived, the
/// whole percentage last reported, and the download's status: starting,
/// downloading while chunks are read, complete at 100 percent, or failed on
/// a read error.
#[derive(Clone, Copy, Debug, PartialEq, Eq)]
pub struct DownloadProgress {
    pub filesize: u64,
    pub downloaded: u64,
    pub percentage: u8,
    pub status: DownloadStatus,
}

/// The size of the next read: what is left, but at most a chunk.
pub open spec fn spec_next_chunk_len(filesize: u64, downloaded: u64) -> usize {
    let left = (filesize - downloaded) as usize;
    if left < CHUNK_SIZE {
        left
    } else {
        CHUNK_SIZE
    }
}

impl DownloadProgress {
    /// A download that starts at `offset` bytes, 0 percent reported,
    /// starting.
    pub fn new(filesize: u64, offset: u64) -> (r: Self)
        ensures
            r == (DownloadProgress {
                filesize,
                downloaded: offset,
                percentage: 0,
                status: DownloadStatus::Starting,
            }),
    {
        DownloadProgress { filesize, downloaded: offset, percentage: 0, status: DownloadStatus::Starting }
    }

    /// A chunk is about to be read: the download is downloading.
    pub fn begin_read(&mut self)
        ensures
            *final(self) == (DownloadProgress { status: DownloadStatus::Downloading, ..*old(self) }),
    {
        self.status = DownloadStatus::Downloading;
    }

    /// A read failed: the download failed, with what had arrived kept.
    pub fn on_read_error(&mut self)
        ensures
            *final(self) == (DownloadProgress { status: DownloadStatus::Failed, ..*old(self) }),
    {
        self.status = DownloadStatus::Failed;
    }

    pub fn next_chunk_len(&self) -> (r: usize)
        requires
            self.downloaded <= self.filesize,
        ensures
            r == spec_next_chunk_len(self.filesize, self.downloaded),
    {
        let left = (self.filesize - self.downloaded) as usize;
        if left < CHUNK_SIZE {
            left
        } else {
            CHUNK_SIZE
        }
    }

    /// Takes a chunk of `n` bytes: the download is complete, at 100
    /// percent, when all bytes have arrived; otherwise it is downloading and
    /// the whole percentage done is reported when it moved.
    pub fn on_chunk(&mut self, n: usize) -> (r: ChunkOutcome)
        requires
            old(self).downloaded + n <= old(self).filesize,
            (old(self).downloaded + n) * 100 <= u64::MAX,
        ensures
            final(self).filesize == old(self).filesize,
            final(self).downloaded == old(self).downloaded + n,
            final(self).downloaded == final(self).filesize ==> r == ChunkOutcome::Complete
                && final(self).percentage == 100 && final(self).status == DownloadStatus::Complete,
            final(self).downloaded != final(self).filesize ==> {
                let p = (final(self).downloaded * 100 / (final(self).filesize as int)) as u8;
                &&& final(self).percentage == p
                &&& final(self).status == DownloadStatus::Downloading
                &&& r == (if p != old(self).percentage {
                    ChunkOutcome::Progress(p)
                } else {
                    ChunkOutcome::Same
                })
            },
    {
        self.downloaded = self.downloaded + n as u64;
        if self.downloaded == self.filesize {
            self.status = DownloadStatus::Complete;
            self.percentage = 100;
            return ChunkOutcome::Complete;
        }
        self.status = DownloadStatus::Downloading;
        let new_percentage = ((self.downloaded * 100) / self.filesize) as u8;
        if new_percentage != self.percentage {
            self.percentage = new_percentage;
            ChunkOutcome::Progress(new_percentage)
        } else {
            ChunkOutcome::Same
        }
    }
}

/// The percentage reported before the end is a whole percentage below 100,
/// and never goes down as chunks arrive.
pub proof fn lemma_percentage_below_100(downloaded: nat, more: nat, filesize: nat)
    requires
        downloaded + more < filesize,
    ensures
        downloaded * 100 / filesize < 100,
        downloaded * 100 / filesize <= (downloaded + more) * 100 / filesize,
{
    assert(downloaded * 100 / filesize < 100) by (nonlinear_arith)
        requires
            downloaded < filesize,
    ;
    assert(downloaded * 100 / filesize <= (downloaded + more) * 100 / filesize) by (nonlinear_arith)
        requires
            filesize > 0,
    ;
}

} // verus!
