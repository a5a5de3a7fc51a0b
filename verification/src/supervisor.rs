//! The capture supervisor: the decision core of the two background
//! activities.
//!
//! The supervisor owns the shared state — the loaded offset catalog and
//! the current capture session — and decides every transition.  The
//! blocking work around it (the one-shot catalog fetch, the periodic
//! liveness probe, finding the process and fingerprinting its module
//! file) is performed by the surrounding application outside any lock,
//! and each outcome is handed in here as a plain value.  Every
//! transition is stated as a specification function of the old state and
//! the outcome, the executable methods return exactly those transitions,
//! and the lifecycle laws at the end of this module are proved over
//! them.  The capture lifecycle has two states, uncaptured and captured;
//! a session leaves the state only by being replaced or by a failed
//! liveness probe, and a session is only ever constructed from a
//! successful catalog lookup for its fingerprint — never speculatively.

use vstd::prelude::*;

use crate::aucaptureoffsets::{spec_lookup, AUCaptureOffsets};
use crate::auprocessreadwrite::{spec_offsets, AUProcessReadWrite};
use crate::errors::{AUCaptureOffsetsError, AUProcessError, CaptureError};

verus! {

/// The derived status pair, recomputed and broadcast whenever either
/// underlying fact changes.
#[derive(Clone, Copy, Debug, PartialEq, Eq, Structural)]
pub struct ProcessStatus {
    /// Whether the offset catalog has been fetched and installed.
    pub au_capture_offsets: bool,
    /// Whether a live process is currently captured.
    pub au_process: bool,
}

/// A live capture: the fingerprint of the captured binary and the field
/// table resolved for it.  The OS process handle itself is owned by the
/// surrounding application, with the same lifetime as this value.
#[derive(Clone, Debug, PartialEq, Eq)]
pub struct CaptureSession {
    /// The fingerprint of the captured binary.
    pub dll_hash: String,
    /// The session's typed access, built from the catalog entry for
    /// that fingerprint.
    pub rw: AUProcessReadWrite,
}

/// The supervisor-owned shared state.
#[derive(Clone, Debug, PartialEq, Eq)]
pub struct CaptureSupervisor {
    /// The offset catalog, once fetched.
    pub catalog: Option<AUCaptureOffsets>,
    /// The current capture session, if a process is captured.
    pub session: Option<CaptureSession>,
}

/// The state and status-change flag after applying one fetch outcome:
/// a fetched catalog is installed — replacing a catalog invalidates any
/// open session, so none survives the install — and the status changed;
/// a failed fetch changes nothing and the catalog stays unset until a
/// fetch succeeds.
pub open spec fn spec_install_catalog(
    s: CaptureSupervisor,
    fetched: Result<AUCaptureOffsets, AUCaptureOffsetsError>,
) -> (CaptureSupervisor, bool) {
    match fetched {
        Ok(cat) => (CaptureSupervisor { catalog: Some(cat), session: None }, true),
        Err(_) => (s, false),
    }
}

/// The state and capture-needed flag after one liveness probe: an
/// uncaptured supervisor always goes on to attempt a capture; a captured
/// one keeps its session while the process lives and drops it the
/// moment the probe fails, attempting a recapture in the same tick.
pub open spec fn spec_tick_liveness(s: CaptureSupervisor, process_alive: bool) -> (
    CaptureSupervisor,
    bool,
) {
    match s.session {
        None => (s, true),
        Some(_) => if process_alive {
            (s, false)
        } else {
            (CaptureSupervisor { session: None, ..s }, true)
        },
    }
}

/// The state and outcome after one capture attempt, given the
/// fingerprint of the found process or the failure that ended the
/// attempt.  A session is installed exactly when the attempt succeeded
/// and the installed catalog has an entry for the fingerprint, and then
/// carries precisely that entry's base offset.
pub open spec fn spec_tick_capture(
    s: CaptureSupervisor,
    found: Result<String, AUProcessError>,
) -> (CaptureSupervisor, Result<(), CaptureError>) {
    match found {
        Err(AUProcessError::ProcessNotFound) => (s, Err(CaptureError::ProcessNotFound)),
        Err(AUProcessError::DllNotFound) => (s, Err(CaptureError::BinaryReadFailed)),
        Ok(hash) => match s.catalog {
            None => (s, Err(CaptureError::OffsetNotFoundForFingerprint)),
            Some(cat) => match spec_lookup(cat.entries@, hash@) {
                None => (s, Err(CaptureError::OffsetNotFoundForFingerprint)),
                Some(offset) => (
                    CaptureSupervisor {
                        session: Some(
                            CaptureSession {
                                dll_hash: hash,
                                rw: AUProcessReadWrite { offsets: spec_offsets(offset) },
                            },
                        ),
                        ..s
                    },
                    Ok(()),
                ),
            },
        },
    }
}

impl CaptureSupervisor {
    /// Whether the catalog has been installed.
    pub open spec fn catalog_ready(self) -> bool {
        self.catalog is Some
    }

    /// Whether the lifecycle is in its captured state.
    pub open spec fn captured(self) -> bool {
        self.session is Some
    }

    /// Every session was built from a successful catalog lookup for its
    /// fingerprint: the invariant of the capture lifecycle.
    pub open spec fn wf(self) -> bool {
        match self.session {
            None => true,
            Some(s) => {
                &&& self.catalog matches Some(cat) && spec_lookup(cat.entries@, s.dll_hash@)
                    == Some(s.rw.offsets.game_options_offset)
                &&& s.rw.offsets.wf()
            },
        }
    }

    /// The supervisor before anything ran: no catalog, nothing captured.
    pub fn new() -> (r: Self)
        ensures
            r.catalog is None,
            r.session is None,
            r.wf(),
    {
        CaptureSupervisor { catalog: None, session: None }
    }

    /// The current status pair.
    pub fn status(&self) -> (r: ProcessStatus)
        ensures
            r.au_capture_offsets == self.catalog_ready(),
            r.au_process == self.captured(),
    {
        ProcessStatus {
            au_capture_offsets: self.catalog.is_some(),
            au_process: self.session.is_some(),
        }
    }

    /// Applies the outcome of the one-shot catalog fetch.  The result
    /// says whether the status changed; the caller broadcasts it then.
    pub fn install_catalog(
        &mut self,
        fetched: Result<AUCaptureOffsets, AUCaptureOffsetsError>,
    ) -> (changed: bool)
        requires
            old(self).wf(),
        ensures
            (*final(self), changed) == spec_install_catalog(*old(self), fetched),
            final(self).wf(),
    {
        match fetched {
            Ok(cat) => {
                self.session = None;
                self.catalog = Some(cat);
                true
            },
            Err(_) => false,
        }
    }

    /// Applies one liveness probe at the start of a watchdog tick.
    /// `process_alive` is the probe's result for the captured process
    /// and is ignored when nothing is captured.  The result says
    /// whether the tick must go on to attempt a capture.
    pub fn tick_liveness(&mut self, process_alive: bool) -> (need_capture: bool)
        requires
            old(self).wf(),
        ensures
            (*final(self), need_capture) == spec_tick_liveness(*old(self), process_alive),
            final(self).wf(),
    {
        match &self.session {
            None => true,
            Some(_) => {
                if process_alive {
                    false
                } else {
                    self.session = None;
                    true
                }
            },
        }
    }

    /// Applies one capture attempt: the outcome of finding the process
    /// and fingerprinting its module file, handed in as the fingerprint
    /// or the failure.  An unknown fingerprint — or no catalog yet —
    /// yields `OffsetNotFoundForFingerprint` and installs nothing, so no
    /// pointer-chain access can follow it.  Every outcome changes the
    /// status or reports a failed attempt; the caller broadcasts either
    /// way.
    pub fn tick_capture(&mut self, found: Result<String, AUProcessError>) -> (r: Result<
        (),
        CaptureError,
    >)
        requires
            old(self).wf(),
            !old(self).captured(),
        ensures
            (*final(self), r) == spec_tick_capture(*old(self), found),
            final(self).wf(),
    {
        let hash = match found {
            Err(AUProcessError::ProcessNotFound) => {
                return Err(CaptureError::ProcessNotFound);
            },
            Err(AUProcessError::DllNotFound) => {
                return Err(CaptureError::BinaryReadFailed);
            },
            Ok(hash) => hash,
        };
        let rw_opt = match &self.catalog {
            None => None,
            Some(cat) => AUProcessReadWrite::new(cat, hash.as_str()),
        };
        match rw_opt {
            None => Err(CaptureError::OffsetNotFoundForFingerprint),
            Some(rw) => {
                self.session = Some(CaptureSession { dll_hash: hash, rw });
                Ok(())
            },
        }
    }
}

/// A captured session whose process dies leaves the captured state in
/// the same tick, keeps the catalog, and that tick goes on to attempt a
/// recapture: one polling interval bounds the transition.
pub proof fn lemma_dead_process_recaptured(s: CaptureSupervisor)
    requires
        s.wf(),
        s.captured(),
    ensures
        ({
            let (after, need_capture) = spec_tick_liveness(s, false);
            &&& !after.captured()
            &&& need_capture
            &&& after.catalog == s.catalog
        }),
{
}

/// A fingerprint absent from the installed catalog — or an attempt made
/// before any catalog is installed — reports
/// `OffsetNotFoundForFingerprint` and leaves the supervisor exactly as
/// it was, uncaptured: nothing is installed that a pointer-chain access
/// could follow.
pub proof fn lemma_unknown_fingerprint_rejected(s: CaptureSupervisor, hash: String)
    requires
        !s.captured(),
        s.catalog matches Some(cat) ==> spec_lookup(cat.entries@, hash@) is None,
    ensures
        ({
            let (after, r) = spec_tick_capture(s, Ok(hash));
            &&& after == s
            &&& !after.captured()
            &&& r == Err::<(), CaptureError>(CaptureError::OffsetNotFoundForFingerprint)
        }),
{
}

/// A failed fetch changes nothing — the status keeps reporting the
/// catalog unready — and does not prevent capture later: once a fetch
/// delivers a catalog that knows a fingerprint, the next watchdog tick
/// captures it.
pub proof fn lemma_fetch_failure_then_recovery(
    s: CaptureSupervisor,
    e: AUCaptureOffsetsError,
    cat: AUCaptureOffsets,
    hash: String,
    offset: u32,
)
    requires
        !s.catalog_ready(),
        spec_lookup(cat.entries@, hash@) == Some(offset),
    ensures
        ({
            let (s1, changed1) = spec_install_catalog(s, Err(e));
            let (s2, changed2) = spec_install_catalog(s1, Ok(cat));
            let (s3, need_capture) = spec_tick_liveness(s2, false);
            let (s4, r) = spec_tick_capture(s3, Ok(hash));
            &&& s1 == s && !changed1 && !s1.catalog_ready()
            &&& changed2
            &&& need_capture
            &&& r == Ok::<(), CaptureError>(())
            &&& s4.captured()
        }),
{
}

} // verus!
