use ausettings::aucaptureoffsets::AUCaptureOffsets;
use ausettings::auprocess::{dll_hash, game_assembly_dll_path};
use ausettings::auprocessreadwrite::{AUProcessReadWrite, Offsets};
use ausettings::errors::AUCaptureOffsetsError;

const FP_A: &str = "BA7816BF8F01CFEA414140DE5DAE2223B00361A396177A9CB410FF61F20015AD";
const FP_B: &str = "E3B0C44298FC1C149AFBF4C8996FB92427AE41E4649B934CA495991B7852B855";

#[test]
fn parse_reads_entries_from_document() {
    let doc = format!(
        "{{ \"{}\": {{ \"GameOptionsOffset\": 452 }}, \"{}\": {{ \"GameOptionsOffset\": 0x1C8 }} }}",
        FP_A, FP_B
    );
    let catalog = AUCaptureOffsets::parse(&doc).unwrap();
    assert_eq!(catalog.game_options_offset(FP_A), Some(452));
    assert_eq!(catalog.game_options_offset(FP_B), Some(0x1C8));
}

#[test]
fn parse_tolerates_json5_syntax() {
    // Unquoted member names, trailing commas and comments are all part
    // of the tolerant superset the catalog is published in.
    let doc = format!(
        "{{ \"{}\": {{ GameOptionsOffset: 452, /* build 2021.3.5 */ }}, }}",
        FP_A
    );
    let catalog = AUCaptureOffsets::parse(&doc).unwrap();
    assert_eq!(catalog.game_options_offset(FP_A), Some(452));
}

#[test]
fn parse_drops_members_without_offset() {
    let doc = format!(
        "{{ \"{}\": {{ \"SomethingElse\": 1 }}, \"{}\": {{ \"GameOptionsOffset\": 9 }} }}",
        FP_A, FP_B
    );
    let catalog = AUCaptureOffsets::parse(&doc).unwrap();
    assert_eq!(catalog.game_options_offset(FP_A), None);
    assert_eq!(catalog.game_options_offset(FP_B), Some(9));
}

#[test]
fn parse_drops_members_that_are_not_objects() {
    let doc = format!("{{ \"{}\": 452, \"{}\": {{ \"GameOptionsOffset\": 9 }} }}", FP_A, FP_B);
    let catalog = AUCaptureOffsets::parse(&doc).unwrap();
    assert_eq!(catalog.game_options_offset(FP_A), None);
    assert_eq!(catalog.game_options_offset(FP_B), Some(9));
}

#[test]
fn parse_rejects_deeply_nested_documents() {
    // Remote input is adversarial: a document over the bracket bound is
    // refused before the recursive parser ever sees it.
    let deep = "[".repeat(200_000);
    assert_eq!(
        AUCaptureOffsets::parse(&deep).unwrap_err(),
        AUCaptureOffsetsError::ParseFailed
    );
    let mut wide = String::from("{");
    for i in 0..2000 {
        wide.push_str(&format!("\"K{}\": {{ \"GameOptionsOffset\": 1 }},", i));
    }
    wide.push('}');
    assert_eq!(
        AUCaptureOffsets::parse(&wide).unwrap_err(),
        AUCaptureOffsetsError::ParseFailed
    );
}

#[test]
fn parse_accepts_nesting_under_the_bound() {
    // A member may itself nest well below the bound; it carries no
    // offset and resolves nothing, but the document parses.
    let nested = format!(
        "{{ \"{}\": {{ \"GameOptionsOffset\": 7 }}, \"extra\": {}{} }}",
        FP_A,
        "[".repeat(500),
        "]".repeat(500)
    );
    let catalog = AUCaptureOffsets::parse(&nested).unwrap();
    assert_eq!(catalog.game_options_offset(FP_A), Some(7));
}

#[test]
fn parse_failure_is_distinct_kind() {
    assert_eq!(
        AUCaptureOffsets::parse("not a document").unwrap_err(),
        AUCaptureOffsetsError::ParseFailed
    );
    assert_eq!(
        AUCaptureOffsets::parse("[1, 2, 3]").unwrap_err(),
        AUCaptureOffsetsError::ParseFailed
    );
}

#[test]
fn unknown_fingerprint_resolves_nothing() {
    let doc = format!("{{ \"{}\": {{ \"GameOptionsOffset\": 452 }} }}", FP_A);
    let catalog = AUCaptureOffsets::parse(&doc).unwrap();
    assert_eq!(catalog.game_options_offset(FP_B), None);
    assert!(AUProcessReadWrite::new(&catalog, FP_B).is_none());
}

#[test]
fn empty_catalog_resolves_nothing() {
    let catalog = AUCaptureOffsets::empty();
    assert_eq!(catalog.game_options_offset(FP_A), None);
}

#[test]
fn resolved_offset_equals_catalog_entry() {
    // For every fingerprint present in the catalog, the resolved base
    // offset is exactly the catalog's entry.
    let doc = format!(
        "{{ \"{}\": {{ \"GameOptionsOffset\": 452 }}, \"{}\": {{ \"GameOptionsOffset\": 456 }} }}",
        FP_A, FP_B
    );
    let catalog = AUCaptureOffsets::parse(&doc).unwrap();
    let rw_a = AUProcessReadWrite::new(&catalog, FP_A).unwrap();
    assert_eq!(rw_a.offsets.game_options_offset, 452);
    let rw_b = AUProcessReadWrite::new(&catalog, FP_B).unwrap();
    assert_eq!(rw_b.offsets.game_options_offset, 456);
}

#[test]
fn fingerprint_is_uppercase_sha256_hex() {
    // Known digests: SHA-256 of "abc" and of the empty input.
    assert_eq!(dll_hash(b"abc"), FP_A);
    assert_eq!(dll_hash(b""), FP_B);
    assert_eq!(dll_hash(b"abc").len(), 64);
}

#[test]
fn module_path_replaces_executable_name() {
    assert_eq!(
        game_assembly_dll_path("C:\\Program Files\\Among Us\\Among Us.exe"),
        "C:\\Program Files\\Among Us\\GameAssembly.dll"
    );
    assert_eq!(
        game_assembly_dll_path("/opt/game/Among Us.exe"),
        "/opt/game/GameAssembly.dll"
    );
    assert_eq!(game_assembly_dll_path("Among Us.exe"), "GameAssembly.dll");
}

#[test]
fn offsets_table_matches_build_constants() {
    let o = Offsets::new(452);
    assert_eq!(o.game_options_offset, 452);
    assert_eq!(o.game_settings_relative_address, (0x5C, 0x04));
    assert_eq!(o.map, 0x10);
    assert_eq!(o.player_speed, 0x14);
    assert_eq!(o.crewmate_vision, 0x18);
    assert_eq!(o.impostor_vision, 0x1C);
    assert_eq!(o.kill_cooldown, 0x20);
    assert_eq!(o.common_tasks, 0x24);
    assert_eq!(o.long_tasks, 0x28);
    assert_eq!(o.short_tasks, 0x2C);
    assert_eq!(o.emergency_meeting, 0x30);
    assert_eq!(o.emergency_cooldown, 0x34);
    assert_eq!(o.impostors, 0x38);
    assert_eq!(o.kill_distance, 0x40);
    assert_eq!(o.discussion_time, 0x44);
    assert_eq!(o.voting_time, 0x48);
    assert_eq!(o.confirm_eject, 0x4C);
    assert_eq!(o.visual_tasks, 0x4D);
    assert_eq!(o.anonymous_voting, 0x4E);
    assert_eq!(o.task_bar_updates, 0x50);
}
