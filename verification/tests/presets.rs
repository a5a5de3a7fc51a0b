use ausettings::errors::CaptureError;
use ausettings::game_settings::GameSettings;
use ausettings::memory::MemoryImage;
use ausettings::storage::Storage;

#[test]
fn fresh_storage_has_ten_empty_presets() {
    let storage = Storage::default();
    assert_eq!(storage.len(), 10);
    for (i, item) in storage.game_settings_list.iter().enumerate() {
        assert_eq!(item.name, format!("Settings {}", i + 1));
        assert!(item.game_settings.is_none());
    }
}

#[test]
fn rename_changes_only_the_named_preset() {
    let mut storage = Storage::default();
    storage.set_game_settings_name(2, "Ranked".to_string());
    assert_eq!(storage.game_settings_list[2].name, "Ranked");
    assert_eq!(storage.game_settings_list[1].name, "Settings 2");
    assert_eq!(storage.game_settings_list[3].name, "Settings 4");
    assert!(storage.game_settings_list[2].game_settings.is_none());
}

#[test]
fn store_and_retrieve_snapshot_at_index() {
    let mut storage = Storage::default();
    let mut s = GameSettings::default();
    s.voting_time = 45;
    s.confirm_eject = true;
    storage.store_game_settings(4, s);
    assert_eq!(storage.game_settings_list[4].name, "Settings 5");
    let back = storage.game_settings_at(4).unwrap();
    assert_eq!(back, s);
    assert!(storage.game_settings_at(3).is_none());
}

#[test]
fn memory_image_rejects_reads_of_absent_bytes() {
    let mem = MemoryImage::new();
    assert_eq!(mem.read_u8(0x1000), Err(CaptureError::MemoryAccessFailed));
    assert_eq!(mem.read_u32(0x1000), Err(CaptureError::MemoryAccessFailed));
    let mut mem = mem;
    mem.write_u8(0x1000, 0xAA);
    // Three of four bytes are still absent: a partial transfer is a
    // failure, not a zero value.
    assert_eq!(mem.read_u32(0x1000), Err(CaptureError::MemoryAccessFailed));
    assert_eq!(mem.read_u8(0x1000), Ok(0xAA));
}

#[test]
fn memory_image_round_trips_typed_values() {
    let mut mem = MemoryImage::new();
    mem.write_u32(0x2000, 0xDEADBEEF).unwrap();
    assert_eq!(mem.read_u32(0x2000), Ok(0xDEADBEEF));
    mem.write_i32(0x3000, -123456).unwrap();
    assert_eq!(mem.read_i32(0x3000), Ok(-123456));
    let bits = (-2.5f32).to_bits();
    mem.write_f32_bits(0x4000, bits).unwrap();
    assert_eq!(mem.read_f32_bits(0x4000), Ok(bits));
    assert_eq!(f32::from_bits(mem.read_f32_bits(0x4000).unwrap()), -2.5f32);
}

#[test]
fn memory_image_stores_little_endian() {
    let mut mem = MemoryImage::new();
    mem.write_u32(0x2000, 0x11223344).unwrap();
    assert_eq!(mem.read_u8(0x2000), Ok(0x44));
    assert_eq!(mem.read_u8(0x2001), Ok(0x33));
    assert_eq!(mem.read_u8(0x2002), Ok(0x22));
    assert_eq!(mem.read_u8(0x2003), Ok(0x11));
}

#[test]
fn memory_image_loads_contiguous_regions() {
    let mut mem = MemoryImage::new();
    mem.load_region(0x5000, &[1, 2, 3, 4]);
    assert_eq!(mem.read_u8(0x5000), Ok(1));
    assert_eq!(mem.read_u8(0x5003), Ok(4));
    assert_eq!(mem.read_u32(0x5000), Ok(0x04030201));
}
