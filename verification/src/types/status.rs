//! A torrent's current state.

use vstd::prelude::*;

verus! {

/// Represents the torrent's current state.
#[derive(Clone, Copy, Debug, PartialEq, Eq, Structural)]
pub enum Status {
    /// Torrent is stopped.
    Stopped,
    /// Torrent is queued to check files.
    CheckWait,
    /// Torrent's files are being checked.
    Check,
    /// Torrent is queued to start downloading.
    DownloadWait,
    /// Torrent is being downloaded.
    Download,
    /// Torrent is queued to start seeding.
    SeedWait,
    /// Torrent is being seeded.
    Seed,
}

/// The status a wire number stands for, if any.
pub open spec fn status_of(v: int) -> Option<Status> {
    if v == 0 {
        Some(Status::Stopped)
    } else if v == 1 {
        Some(Status::CheckWait)
    } else if v == 2 {
        Some(Status::Check)
    } else if v == 3 {
        Some(Status::DownloadWait)
    } else if v == 4 {
        Some(Status::Download)
    } else if v == 5 {
        Some(Status::SeedWait)
    } else if v == 6 {
        Some(Status::Seed)
    } else {
        None
    }
}

/// The wire number of a status.
pub open spec fn status_wire(st: Status) -> int {
    match st {
        Status::Stopped => 0,
        Status::CheckWait => 1,
        Status::Check => 2,
        Status::DownloadWait => 3,
        Status::Download => 4,
        Status::SeedWait => 5,
        Status::Seed => 6,
    }
}

impl Status {
    /// The status a wire number stands for, if any.
    pub fn from_i64(v: i64) -> (r: Option<Status>)
        ensures
            r == status_of(v as int),
    {
        if v == 0 {
            Some(Status::Stopped)
        } else if v == 1 {
            Some(Status::CheckWait)
        } else if v == 2 {
            Some(Status::Check)
        } else if v == 3 {
            Some(Status::DownloadWait)
        } else if v == 4 {
            Some(Status::Download)
        } else if v == 5 {
            Some(Status::SeedWait)
        } else if v == 6 {
            Some(Status::Seed)
        } else {
            None
        }
    }

    /// The wire number of this status.
    pub fn as_i64(&self) -> (r: i64)
        ensures
            r as int == status_wire(*self),
    {
        match self {
            Status::Stopped => 0,
            Status::CheckWait => 1,
            Status::Check => 2,
            Status::DownloadWait => 3,
            Status::Download => 4,
            Status::SeedWait => 5,
            Status::Seed => 6,
        }
    }
}

/// The wire number of a status is the one it stands for.
pub proof fn lemma_status_wire_round_trip(st: Status)
    ensures
        status_of(status_wire(st)) == Some(st),
{
}

} // verus!
