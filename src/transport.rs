use vstd::prelude::*;

verus! {

/// What the desktop transport reported for one blocking write.
#[derive(Clone, Copy, Debug, PartialEq, Eq, Structural)]
pub enum WriteStatus {
    Accepted,
    OutputUnderflowed,
    Failed { code: i32 },
}

/// How the desktop adapter treats a write's status.
#[derive(Clone, Copy, Debug, PartialEq, Eq, Structural)]
pub enum WriteVerdict {
    /// The samples were taken.
    Played,
    /// The device ran dry before the samples came: warn and go on.
    Underrun,
    /// Any other transport failure: playback cannot go on.
    Fatal { code: i32 },
}

impl WriteVerdict {
    /// Whether the caller's write succeeds.
    pub open spec fn succeeds(self) -> bool {
        !(self is Fatal)
    }

    /// Whether a warning is logged.
    pub open spec fn warns(self) -> bool {
        self is Underrun
    }
}

/// The desktop adapter's policy on a write's status: an underflow is a warning,
/// never a failed write; every other error is fatal.
pub fn judge_write(status: WriteStatus) -> (r: WriteVerdict)
    ensures
        status == WriteStatus::Accepted ==> r == WriteVerdict::Played,
        status == WriteStatus::OutputUnderflowed ==> r == WriteVerdict::Underrun,
        forall|c: i32| status == (WriteStatus::Failed { code: c }) ==> r == (WriteVerdict::Fatal { code: c }),
        r.succeeds() == !(status is Failed),
        r.warns() == (status == WriteStatus::OutputUnderflowed),
{
    match status {
        WriteStatus::Accepted => WriteVerdict::Played,
        WriteStatus::OutputUnderflowed => WriteVerdict::Underrun,
        WriteStatus::Failed { code } => WriteVerdict::Fatal { code },
    }
}

} // verus!
