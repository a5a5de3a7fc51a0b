use ausettings::aucaptureoffsets::AUCaptureOffsets;
use ausettings::errors::{AUCaptureOffsetsError, AUProcessError, CaptureError};
use ausettings::supervisor::CaptureSupervisor;

const FP: &str = "BA7816BF8F01CFEA414140DE5DAE2223B00361A396177A9CB410FF61F20015AD";

fn loaded_catalog() -> AUCaptureOffsets {
    let doc = format!("{{ \"{}\": {{ \"GameOptionsOffset\": 452 }} }}", FP);
    AUCaptureOffsets::parse(&doc).unwrap()
}

fn assert_send<T: Send>() {}

fn assert_sync<T: Sync>() {}

#[test]
fn test_send_sync() {
    assert_send::<CaptureSupervisor>();
    assert_sync::<CaptureSupervisor>();
}

#[test]
fn fresh_supervisor_reports_nothing_ready() {
    let sup = CaptureSupervisor::new();
    let status = sup.status();
    assert!(!status.au_capture_offsets);
    assert!(!status.au_process);
}

#[test]
fn catalog_install_changes_status() {
    let mut sup = CaptureSupervisor::new();
    let changed = sup.install_catalog(Ok(loaded_catalog()));
    assert!(changed);
    assert!(sup.status().au_capture_offsets);
    assert!(!sup.status().au_process);
}

#[test]
fn fetch_failure_leaves_catalog_unready() {
    // A failed fetch leaves the catalog unset and emits no status
    // change; a later successful install still enables capture.
    let mut sup = CaptureSupervisor::new();
    let changed = sup.install_catalog(Err(AUCaptureOffsetsError::FetchFailed));
    assert!(!changed);
    assert!(!sup.status().au_capture_offsets);
    // A later tick can still capture once a catalog becomes available.
    let changed = sup.install_catalog(Ok(loaded_catalog()));
    assert!(changed);
    let need = sup.tick_liveness(false);
    assert!(need);
    assert_eq!(sup.tick_capture(Ok(FP.to_string())), Ok(()));
    assert!(sup.status().au_process);
}

#[test]
fn capture_installs_session_from_catalog_entry() {
    let mut sup = CaptureSupervisor::new();
    sup.install_catalog(Ok(loaded_catalog()));
    let need = sup.tick_liveness(true);
    assert!(need, "nothing captured yet, so the tick must attempt a capture");
    assert_eq!(sup.tick_capture(Ok(FP.to_string())), Ok(()));
    let session = sup.session.as_ref().unwrap();
    assert_eq!(session.dll_hash, FP);
    assert_eq!(session.rw.offsets.game_options_offset, 452);
    assert!(sup.status().au_process);
}

#[test]
fn dead_process_leaves_captured_state_and_recaptures() {
    // A captured session whose process dies transitions back to
    // uncaptured and the same tick attempts a fresh capture.
    let mut sup = CaptureSupervisor::new();
    sup.install_catalog(Ok(loaded_catalog()));
    sup.tick_liveness(false);
    sup.tick_capture(Ok(FP.to_string())).unwrap();
    assert!(sup.status().au_process);

    // While the process lives, the tick does nothing.
    let need = sup.tick_liveness(true);
    assert!(!need);
    assert!(sup.status().au_process);

    // The process dies: captured -> uncaptured, then recapture.
    let need = sup.tick_liveness(false);
    assert!(need);
    assert!(!sup.status().au_process);
    assert_eq!(sup.tick_capture(Ok(FP.to_string())), Ok(()));
    assert!(sup.status().au_process);
}

#[test]
fn unknown_fingerprint_yields_offset_not_found() {
    let other = "E3B0C44298FC1C149AFBF4C8996FB92427AE41E4649B934CA495991B7852B855";
    let mut sup = CaptureSupervisor::new();
    sup.install_catalog(Ok(loaded_catalog()));
    sup.tick_liveness(false);
    assert_eq!(
        sup.tick_capture(Ok(other.to_string())),
        Err(CaptureError::OffsetNotFoundForFingerprint)
    );
    assert!(sup.session.is_none());
}

#[test]
fn capture_without_catalog_yields_offset_not_found() {
    let mut sup = CaptureSupervisor::new();
    sup.tick_liveness(false);
    assert_eq!(
        sup.tick_capture(Ok(FP.to_string())),
        Err(CaptureError::OffsetNotFoundForFingerprint)
    );
    assert!(sup.session.is_none());
}

#[test]
fn capture_failures_map_to_taxonomy() {
    let mut sup = CaptureSupervisor::new();
    sup.install_catalog(Ok(loaded_catalog()));
    sup.tick_liveness(false);
    assert_eq!(
        sup.tick_capture(Err(AUProcessError::ProcessNotFound)),
        Err(CaptureError::ProcessNotFound)
    );
    assert_eq!(
        sup.tick_capture(Err(AUProcessError::DllNotFound)),
        Err(CaptureError::BinaryReadFailed)
    );
    assert!(sup.session.is_none());
}
