use ausettings::auprocessreadwrite::{
    base_addr, read_fields, set_fields, write_plan, AUProcessReadWrite, ChainStep, ChainWalk,
    MemWrite, Offsets,
};
use ausettings::aucaptureoffsets::AUCaptureOffsets;
use ausettings::errors::CaptureError;
use ausettings::game_settings::GameSettings;
use ausettings::memory::MemoryImage;

fn sample_settings() -> GameSettings {
    GameSettings {
        map: 2,
        player_speed: 1.25f32.to_bits(),
        crewmate_vision: 0.75f32.to_bits(),
        impostor_vision: 1.5f32.to_bits(),
        kill_cooldown: 27.5f32.to_bits(),
        common_tasks: 1,
        long_tasks: 2,
        short_tasks: 3,
        emergency_meeting: 4,
        emergency_cooldown: 15,
        impostors: 3,
        kill_distance: 1,
        discussion_time: 30,
        voting_time: 120,
        confirm_eject: true,
        visual_tasks: false,
        anonymous_voting: true,
        task_bar_updates: 2,
    }
}

/// Populates every field byte of the struct at `base` with zeros.
fn zeroed_struct(mem: &mut MemoryImage, base: u32) {
    let zeros = vec![0u8; 0x44];
    mem.load_region(base + 0x10, &zeros);
}

#[test]
fn pointer_chain_on_synthetic_image() {
    // Module base 0x10000 and base offset 0x20: the root pointer is read
    // from 0x10020.  With relative chain [0x5C, 0x04] and root pointer
    // value 0x50000, resolution reads 0x50000+0x5C and then the result
    // plus 0x04.
    let mut mem = MemoryImage::new();
    mem.write_u32(0x10020, 0x50000).unwrap();
    mem.write_u32(0x50000 + 0x5C, 0x60000).unwrap();
    mem.write_u32(0x60000 + 0x04, 0x70000).unwrap();
    let offsets = Offsets::new(0x20);
    assert_eq!(base_addr(&mem, 0x10000, &offsets), Ok(0x70000));
}

#[test]
fn pointer_chain_matches_manual_computation() {
    let mut mem = MemoryImage::new();
    mem.write_u32(0x10020, 0x50000).unwrap();
    mem.write_u32(0x5005C, 0x12345).unwrap();
    mem.write_u32(0x12345 + 0x04, 0xABCDE).unwrap();
    let offsets = Offsets::new(0x20);
    // Manual computation on the same image.
    let root = mem.read_u32(0x10000 + 0x20).unwrap();
    let a1 = mem.read_u32(root + 0x5C).unwrap();
    let resolved = mem.read_u32(a1 + 0x04).unwrap();
    assert_eq!(base_addr(&mem, 0x10000, &offsets), Ok(resolved));
    assert_eq!(resolved, 0xABCDE);
}

#[test]
fn pointer_chain_fails_on_absent_pointer() {
    let mut mem = MemoryImage::new();
    mem.write_u32(0x10020, 0x50000).unwrap();
    // The second pointer of the chain is absent.
    let offsets = Offsets::new(0x20);
    assert_eq!(
        base_addr(&mem, 0x10000, &offsets),
        Err(CaptureError::MemoryAccessFailed)
    );
}

#[test]
fn chain_walk_requests_in_order() {
    let offsets = Offsets::new(0x20);
    let (mut walk, first) = ChainWalk::start(0x10000, &offsets).unwrap();
    assert_eq!(first, 0x10020);
    assert_eq!(walk.feed(0x50000), ChainStep::ReadAt(0x5005C));
    assert_eq!(walk.feed(0x60000), ChainStep::ReadAt(0x60004));
    assert_eq!(walk.feed(0x70000), ChainStep::Resolved(0x70000));
}

#[test]
fn chain_walk_reports_overflow() {
    let offsets = Offsets::new(0x20);
    let (mut walk, _) = ChainWalk::start(0x10000, &offsets).unwrap();
    assert_eq!(walk.feed(u32::MAX - 0x10), ChainStep::OutOfRange);
}

#[test]
fn field_read_returns_exact_bit_pattern() {
    // Struct address 0x60000, player speed at offset 0x14, width four,
    // kind float: the read returns the exact IEEE-754 bit pattern stored
    // at 0x60014.
    let mut mem = MemoryImage::new();
    zeroed_struct(&mut mem, 0x60000);
    let bits = 5.5f32.to_bits();
    mem.write_u32(0x60014, bits).unwrap();
    let offsets = Offsets::new(0x20);
    let s = read_fields(&mem, 0x60000, &offsets).unwrap();
    assert_eq!(s.player_speed, bits);
    assert_eq!(f32::from_bits(s.player_speed), 5.5f32);
}

#[test]
fn field_read_fails_on_missing_byte() {
    let mem = MemoryImage::new();
    let offsets = Offsets::new(0x20);
    assert_eq!(
        read_fields(&mem, 0x60000, &offsets),
        Err(CaptureError::MemoryAccessFailed)
    );
}

#[test]
fn snapshot_round_trip_skips_uncontrollable_fields() {
    let mut mem = MemoryImage::new();
    let base = 0x60000u32;
    zeroed_struct(&mut mem, base);
    // Prior values of the uncontrollable fields.
    mem.write_i32(base + 0x10, 7).unwrap();
    mem.write_i32(base + 0x38, 5).unwrap();
    let offsets = Offsets::new(0x20);
    let s = sample_settings();
    set_fields(&mut mem, base, &offsets, &s, false).unwrap();
    let back = read_fields(&mem, base, &offsets).unwrap();
    // Every field not on the exclusion list reads back as written.
    assert_eq!(back.player_speed, s.player_speed);
    assert_eq!(back.crewmate_vision, s.crewmate_vision);
    assert_eq!(back.impostor_vision, s.impostor_vision);
    assert_eq!(back.kill_cooldown, s.kill_cooldown);
    assert_eq!(back.common_tasks, s.common_tasks);
    assert_eq!(back.long_tasks, s.long_tasks);
    assert_eq!(back.short_tasks, s.short_tasks);
    assert_eq!(back.emergency_meeting, s.emergency_meeting);
    assert_eq!(back.emergency_cooldown, s.emergency_cooldown);
    assert_eq!(back.kill_distance, s.kill_distance);
    assert_eq!(back.discussion_time, s.discussion_time);
    assert_eq!(back.voting_time, s.voting_time);
    assert_eq!(back.confirm_eject, s.confirm_eject);
    assert_eq!(back.visual_tasks, s.visual_tasks);
    assert_eq!(back.anonymous_voting, s.anonymous_voting);
    assert_eq!(back.task_bar_updates, s.task_bar_updates);
    // The excluded fields keep their prior values.
    assert_eq!(back.map, 7);
    assert_eq!(back.impostors, 5);
}

#[test]
fn snapshot_round_trip_with_override_writes_all_fields() {
    let mut mem = MemoryImage::new();
    let base = 0x60000u32;
    zeroed_struct(&mut mem, base);
    let offsets = Offsets::new(0x20);
    let s = sample_settings();
    set_fields(&mut mem, base, &offsets, &s, true).unwrap();
    let back = read_fields(&mem, base, &offsets).unwrap();
    assert_eq!(back, s);
}

#[test]
fn full_snapshot_read_resolves_chain_first() {
    let mut mem = MemoryImage::new();
    let base = 0x70000u32;
    zeroed_struct(&mut mem, base);
    mem.write_i32(base + 0x44, 45).unwrap();
    mem.write_u32(0x10020, 0x50000).unwrap();
    mem.write_u32(0x5005C, 0x60000).unwrap();
    mem.write_u32(0x60004, base).unwrap();
    let offsets = Offsets::new(0x20);
    let s = GameSettings::read(&mem, 0x10000, &offsets).unwrap();
    assert_eq!(s.discussion_time, 45);
}

#[test]
fn full_snapshot_write_resolves_chain_first() {
    let mut mem = MemoryImage::new();
    let base = 0x70000u32;
    zeroed_struct(&mut mem, base);
    mem.write_u32(0x10020, 0x50000).unwrap();
    mem.write_u32(0x5005C, 0x60000).unwrap();
    mem.write_u32(0x60004, base).unwrap();
    let offsets = Offsets::new(0x20);
    let s = sample_settings();
    s.write(&mut mem, 0x10000, &offsets).unwrap();
    let back = GameSettings::read(&mem, 0x10000, &offsets).unwrap();
    assert_eq!(back.voting_time, s.voting_time);
    // The uncontrollable override is off at build time.
    assert_eq!(back.map, 0);
}

#[test]
fn write_plan_lists_minimum_width_transfers() {
    let s = sample_settings();
    let base = 0x60000u32;
    let plan = write_plan(&s, base, false).unwrap();
    assert_eq!(plan.len(), 16);
    assert_eq!(
        plan[0],
        MemWrite::Word {
            addr: base + 0x14,
            value: s.player_speed
        }
    );
    assert_eq!(
        plan[12],
        MemWrite::Byte {
            addr: base + 0x4C,
            value: 1
        }
    );
    assert_eq!(
        plan[13],
        MemWrite::Byte {
            addr: base + 0x4D,
            value: 0
        }
    );
    let with_override = write_plan(&s, base, true).unwrap();
    assert_eq!(with_override.len(), 18);
    assert_eq!(
        with_override[0],
        MemWrite::Word {
            addr: base + 0x10,
            value: s.map as u32
        }
    );
}

#[test]
fn write_plan_refuses_span_overflow() {
    let s = sample_settings();
    assert!(write_plan(&s, u32::MAX - 0x10, false).is_none());
}

#[test]
fn session_reads_through_resolved_table() {
    let doc = "{ \"AAAA\": { \"GameOptionsOffset\": 0x20 } }";
    let catalog = AUCaptureOffsets::parse(doc).unwrap();
    let rw = AUProcessReadWrite::new(&catalog, "AAAA").unwrap();
    assert_eq!(rw.offsets.game_options_offset, 0x20);
    let mut mem = MemoryImage::new();
    let base = 0x70000u32;
    let zeros = vec![0u8; 0x44];
    mem.load_region(base + 0x10, &zeros);
    mem.write_i32(base + 0x48, 90).unwrap();
    mem.write_u32(0x10020, 0x50000).unwrap();
    mem.write_u32(0x5005C, 0x60000).unwrap();
    mem.write_u32(0x60004, base).unwrap();
    let s = rw.game_settings(&mem, 0x10000).unwrap();
    assert_eq!(s.voting_time, 90);
    let mut s2 = s;
    s2.discussion_time = 75;
    rw.set_game_settings(&mut mem, 0x10000, s2).unwrap();
    let back = rw.game_settings(&mem, 0x10000).unwrap();
    assert_eq!(back.discussion_time, 75);
}
