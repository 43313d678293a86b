//! The change monitor: compares the build artifact's current
//! modification time against the last-known one and signals "reload
//! needed". It never updates the baseline itself; the lifecycle manager
//! does, once a load attempt completes, so one actual change produces
//! at most one acted-on signal.

use vstd::prelude::*;
use crate::loader::{Artifact, FileSystem};

verus! {

/// A transient reload request, produced by one poll and consumed once
/// by the lifecycle manager. It carries the modification time that
/// triggered it.
#[derive(Clone, Copy, Debug, PartialEq, Eq, Structural)]
pub struct ReloadSignal {
    pub modified: u64,
}

/// The monitor's whole state: the baseline modification time, set when
/// the active module was loaded and on every completed reload attempt.
#[derive(Clone, Copy, Debug, PartialEq, Eq, Structural)]
pub struct ChangeMonitor {
    pub last_known_modified: u64,
}

/// A poll of artifact `a` signals exactly when a modification time can
/// be read and is strictly newer than the baseline. An unreadable
/// artifact is treated as transient, never as a change.
pub open spec fn poll_signals(m: ChangeMonitor, a: Artifact) -> bool {
    a.readable && a.has_timestamp && a.modified > m.last_known_modified
}

impl ChangeMonitor {
    pub fn new(baseline: u64) -> (r: ChangeMonitor)
        ensures
            r.last_known_modified == baseline,
    {
        ChangeMonitor { last_known_modified: baseline }
    }

    /// Read the artifact's current modification time and compare it
    /// against the baseline. Does not mutate the monitor.
    pub fn poll(&self, fs: &FileSystem) -> (r: Option<ReloadSignal>)
        ensures
            r is Some <==> poll_signals(*self, fs.artifact),
            r matches Some(s) ==> s.modified == fs.artifact.modified,
    {
        if fs.artifact.readable && fs.artifact.has_timestamp
            && fs.artifact.modified > self.last_known_modified {
            Some(ReloadSignal { modified: fs.artifact.modified })
        } else {
            None
        }
    }

    /// Install a new baseline: the modification time observed by a
    /// completed load attempt.
    pub fn acknowledge(&mut self, modified: u64)
        ensures
            final(self).last_known_modified == modified,
    {
        self.last_known_modified = modified;
    }
}

/// Once the baseline has caught up with an artifact's modification
/// time, polls of that artifact never re-signal: at most one signal per
/// strictly increasing modification-time transition.
pub proof fn lemma_no_resignal(m: ChangeMonitor, a: Artifact)
    requires
        a.modified <= m.last_known_modified,
    ensures
        !poll_signals(m, a),
{
}

} // verus!
