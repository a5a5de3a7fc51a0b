//! Pointer-chain resolution and typed snapshot access.
//!
//! Given the base virtual address of the target module and the
//! version-specific base offset from the catalog, the live settings struct
//! is found by reading one root pointer at `module base + base offset` and
//! then following a fixed ordered chain of relative-offset dereferences.
//! The chain is re-walked on every snapshot read and write — never cached —
//! because the host process can reallocate the struct between calls.
//! The field table then maps each named configuration field to a byte
//! offset and width inside the resolved struct.

use vstd::prelude::*;

use crate::aucaptureoffsets::{spec_lookup, AUCaptureOffsets};
use crate::errors::CaptureError;
use crate::game_settings::GameSettings;
use crate::memory::{
    le_u32, mem_has_u32, same_outside, spec_read_i32, spec_read_u32, MemoryImage,
};

verus! {

/// The field offset table: the version-specific base offset of the root
/// pointer, the relative-offset chain, and the byte offset of every
/// configuration field inside the resolved struct.  Only
/// `game_options_offset` depends on the catalog; everything else is fixed
/// at build time.
#[derive(Clone, Copy, Debug, PartialEq, Eq)]
pub struct Offsets {
    /// Offset of the root pointer from the module base.
    pub game_options_offset: u32,
    /// The ordered relative-offset chain walked from the root pointer.
    pub game_settings_relative_address: (u32, u32),
    /// Byte offset of each field inside the resolved struct.
    pub map: u32,
    pub player_speed: u32,
    pub crewmate_vision: u32,
    pub impostor_vision: u32,
    pub kill_cooldown: u32,
    pub common_tasks: u32,
    pub long_tasks: u32,
    pub short_tasks: u32,
    pub emergency_meeting: u32,
    pub emergency_cooldown: u32,
    pub impostors: u32,
    pub kill_distance: u32,
    pub discussion_time: u32,
    pub voting_time: u32,
    pub confirm_eject: u32,
    pub visual_tasks: u32,
    pub anonymous_voting: u32,
    pub task_bar_updates: u32,
}

/// The one offset table this build supports, for a given base offset.
pub open spec fn spec_offsets(game_options_offset: u32) -> Offsets {
    Offsets {
        game_options_offset,
        game_settings_relative_address: (0x5C, 0x04),
        map: 0x10,
        player_speed: 0x14,
        crewmate_vision: 0x18,
        impostor_vision: 0x1C,
        kill_cooldown: 0x20,
        common_tasks: 0x24,
        long_tasks: 0x28,
        short_tasks: 0x2C,
        emergency_meeting: 0x30,
        emergency_cooldown: 0x34,
        impostors: 0x38,
        kill_distance: 0x40,
        discussion_time: 0x44,
        voting_time: 0x48,
        confirm_eject: 0x4C,
        visual_tasks: 0x4D,
        anonymous_voting: 0x4E,
        task_bar_updates: 0x50,
    }
}

impl Offsets {
    /// Whether this table is the build-time table: every entry but the
    /// catalog-supplied base offset has its fixed value.
    pub open spec fn wf(self) -> bool {
        self == spec_offsets(self.game_options_offset)
    }

    /// The build-time field table around the catalog-supplied base offset.
    pub fn new(game_options_offset: u32) -> (r: Self)
        ensures
            r == spec_offsets(game_options_offset),
            r.wf(),
    {
        Offsets {
            game_options_offset,
            game_settings_relative_address: (0x5C, 0x04),
            map: 0x10,
            player_speed: 0x14,
            crewmate_vision: 0x18,
            impostor_vision: 0x1C,
            kill_cooldown: 0x20,
            common_tasks: 0x24,
            long_tasks: 0x28,
            short_tasks: 0x2C,
            emergency_meeting: 0x30,
            emergency_cooldown: 0x34,
            impostors: 0x38,
            kill_distance: 0x40,
            discussion_time: 0x44,
            voting_time: 0x48,
            confirm_eject: 0x4C,
            visual_tasks: 0x4D,
            anonymous_voting: 0x4E,
            task_bar_updates: 0x50,
        }
    }
}

/// One step of a pointer-chain walk: the next address the accessor must
/// read, the resolved struct address, or a failed address computation.
#[derive(Clone, Copy, Debug, PartialEq, Eq, Structural)]
pub enum ChainStep {
    /// Read a 32-bit pointer at this absolute address and feed it back.
    ReadAt(u32),
    /// The walk is complete: the live struct base address.
    Resolved(u32),
    /// An address computation left the 32-bit address space.
    OutOfRange,
}

/// An in-progress pointer-chain walk.  The walk itself performs no memory
/// access: the accessor reads each requested address and feeds the value
/// back, so the same walk drives both the synthetic image backend and an
/// OS-backed accessor.
#[derive(Clone, Copy, Debug, PartialEq, Eq, Structural)]
pub struct ChainWalk {
    /// First relative offset of the chain.
    pub rel0: u32,
    /// Second relative offset of the chain.
    pub rel1: u32,
    /// How many pointer values have been fed so far.
    pub step: u8,
}

/// The walk state after feeding one pointer value.
pub open spec fn spec_feed_state(w: ChainWalk, value: u32) -> ChainWalk {
    if w.step < 3 {
        ChainWalk { step: (w.step + 1) as u8, ..w }
    } else {
        w
    }
}

/// The request issued after feeding one pointer value.
pub open spec fn spec_feed_step(w: ChainWalk, value: u32) -> ChainStep {
    if w.step == 0 {
        if value + w.rel0 <= u32::MAX {
            ChainStep::ReadAt((value + w.rel0) as u32)
        } else {
            ChainStep::OutOfRange
        }
    } else if w.step == 1 {
        if value + w.rel1 <= u32::MAX {
            ChainStep::ReadAt((value + w.rel1) as u32)
        } else {
            ChainStep::OutOfRange
        }
    } else {
        ChainStep::Resolved(value)
    }
}

impl ChainWalk {
    /// Begins a walk for the given module base and table: the first
    /// address to read is `module_base + game_options_offset`, where the
    /// root pointer lives.  Fails if that address leaves the address
    /// space.
    pub fn start(module_base: u32, offsets: &Offsets) -> (r: Option<(ChainWalk, u32)>)
        ensures
            match r {
                Some(p) => {
                    &&& module_base + offsets.game_options_offset <= u32::MAX
                    &&& p.1 == (module_base + offsets.game_options_offset) as u32
                    &&& p.0 == (ChainWalk {
                        rel0: offsets.game_settings_relative_address.0,
                        rel1: offsets.game_settings_relative_address.1,
                        step: 0,
                    })
                },
                None => module_base + offsets.game_options_offset > u32::MAX,
            },
    {
        if offsets.game_options_offset > u32::MAX - module_base {
            return None;
        }
        let w = ChainWalk {
            rel0: offsets.game_settings_relative_address.0,
            rel1: offsets.game_settings_relative_address.1,
            step: 0,
        };
        Some((w, module_base + offsets.game_options_offset))
    }

    /// Feeds the pointer value read at the previously requested address
    /// and returns the next request: another address to read, the
    /// resolved struct address once the whole chain has been applied, or
    /// a failure when an address computation overflows.
    pub fn feed(&mut self, value: u32) -> (r: ChainStep)
        ensures
            *final(self) == spec_feed_state(*old(self), value),
            r == spec_feed_step(*old(self), value),
    {
        if self.step == 0 {
            self.step = 1;
            if value > u32::MAX - self.rel0 {
                ChainStep::OutOfRange
            } else {
                ChainStep::ReadAt(value + self.rel0)
            }
        } else if self.step == 1 {
            self.step = 2;
            if value > u32::MAX - self.rel1 {
                ChainStep::OutOfRange
            } else {
                ChainStep::ReadAt(value + self.rel1)
            }
        } else {
            if self.step == 2 {
                self.step = 3;
            }
            ChainStep::Resolved(value)
        }
    }
}

/// The address of the live settings struct under memory `m`: the root
/// pointer read at `module base + base offset`, then one dereference per
/// relative offset of the chain.  `None` when an address computation
/// overflows or a required byte is absent.
pub open spec fn spec_resolve(m: Map<u32, u8>, module_base: u32, o: Offsets) -> Option<u32> {
    if module_base + o.game_options_offset > u32::MAX {
        None
    } else {
        match spec_read_u32(m, (module_base + o.game_options_offset) as u32) {
            None => None,
            Some(root) => if root + o.game_settings_relative_address.0 > u32::MAX {
                None
            } else {
                match spec_read_u32(m, (root + o.game_settings_relative_address.0) as u32) {
                    None => None,
                    Some(a1) => if a1 + o.game_settings_relative_address.1 > u32::MAX {
                        None
                    } else {
                        spec_read_u32(m, (a1 + o.game_settings_relative_address.1) as u32)
                    },
                }
            },
        }
    }
}

/// Resolves the live struct base address inside a memory image by
/// walking the full pointer chain.  Never cached: callers re-resolve on
/// every snapshot operation.
pub fn base_addr(mem: &MemoryImage, module_base: u32, offsets: &Offsets) -> (r: Result<
    u32,
    CaptureError,
>)
    ensures
        match r {
            Ok(a) => spec_resolve(mem@, module_base, *offsets) == Some(a),
            Err(e) => {
                &&& spec_resolve(mem@, module_base, *offsets) is None
                &&& e == CaptureError::MemoryAccessFailed
            },
        },
{
    let start = ChainWalk::start(module_base, offsets);
    let (mut walk, root_addr) = match start {
        None => {
            return Err(CaptureError::MemoryAccessFailed);
        },
        Some(p) => p,
    };
    let root = mem.read_u32(root_addr)?;
    let a1 = match walk.feed(root) {
        ChainStep::ReadAt(a) => a,
        _ => {
            return Err(CaptureError::MemoryAccessFailed);
        },
    };
    let v1 = mem.read_u32(a1)?;
    let a2 = match walk.feed(v1) {
        ChainStep::ReadAt(a) => a,
        _ => {
            return Err(CaptureError::MemoryAccessFailed);
        },
    };
    let v2 = mem.read_u32(a2)?;
    match walk.feed(v2) {
        ChainStep::Resolved(a) => Ok(a),
        _ => {
            return Err(CaptureError::MemoryAccessFailed);
        },
    }
}

/// The unsigned 32-bit value stored little-endian at `a`; meaningful when
/// `mem_has_u32(m, a)` holds.
pub open spec fn u32_at(m: Map<u32, u8>, a: u32) -> u32 {
    le_u32(m[a], m[(a + 1) as u32], m[(a + 2) as u32], m[(a + 3) as u32])
}

/// The signed 32-bit value stored little-endian at `a`.
pub open spec fn i32_at(m: Map<u32, u8>, a: u32) -> i32 {
    u32_at(m, a) as i32
}

/// The boolean stored as one byte at `a`: any non-zero byte is true.
pub open spec fn bool_at(m: Map<u32, u8>, a: u32) -> bool {
    m[a] != 0
}

/// A four-byte field at `base + off` lies inside the address space and
/// all of its bytes are present.
pub open spec fn u32_field_ok(m: Map<u32, u8>, base: u32, off: u32) -> bool {
    &&& base + off + 3 <= u32::MAX
    &&& mem_has_u32(m, (base + off) as u32)
}

/// A one-byte field at `base + off` lies inside the address space and its
/// byte is present.
pub open spec fn u8_field_ok(m: Map<u32, u8>, base: u32, off: u32) -> bool {
    &&& base + off <= u32::MAX
    &&& m.contains_key((base + off) as u32)
}

/// Every configuration field of the table is readable from `m` in the
/// struct based at `base`.
pub open spec fn fields_readable(m: Map<u32, u8>, base: u32, o: Offsets) -> bool {
    &&& u32_field_ok(m, base, o.map)
    &&& u32_field_ok(m, base, o.player_speed)
    &&& u32_field_ok(m, base, o.crewmate_vision)
    &&& u32_field_ok(m, base, o.impostor_vision)
    &&& u32_field_ok(m, base, o.kill_cooldown)
    &&& u32_field_ok(m, base, o.common_tasks)
    &&& u32_field_ok(m, base, o.long_tasks)
    &&& u32_field_ok(m, base, o.short_tasks)
    &&& u32_field_ok(m, base, o.emergency_meeting)
    &&& u32_field_ok(m, base, o.emergency_cooldown)
    &&& u32_field_ok(m, base, o.impostors)
    &&& u32_field_ok(m, base, o.kill_distance)
    &&& u32_field_ok(m, base, o.discussion_time)
    &&& u32_field_ok(m, base, o.voting_time)
    &&& u8_field_ok(m, base, o.confirm_eject)
    &&& u8_field_ok(m, base, o.visual_tasks)
    &&& u8_field_ok(m, base, o.anonymous_voting)
    &&& u32_field_ok(m, base, o.task_bar_updates)
}

/// The snapshot read field-for-field from the struct based at `base`;
/// meaningful when `fields_readable` holds.
pub open spec fn spec_fields(m: Map<u32, u8>, base: u32, o: Offsets) -> GameSettings {
    GameSettings {
        map: i32_at(m, (base + o.map) as u32),
        player_speed: u32_at(m, (base + o.player_speed) as u32),
        crewmate_vision: u32_at(m, (base + o.crewmate_vision) as u32),
        impostor_vision: u32_at(m, (base + o.impostor_vision) as u32),
        kill_cooldown: u32_at(m, (base + o.kill_cooldown) as u32),
        common_tasks: i32_at(m, (base + o.common_tasks) as u32),
        long_tasks: i32_at(m, (base + o.long_tasks) as u32),
        short_tasks: i32_at(m, (base + o.short_tasks) as u32),
        emergency_meeting: i32_at(m, (base + o.emergency_meeting) as u32),
        emergency_cooldown: i32_at(m, (base + o.emergency_cooldown) as u32),
        impostors: i32_at(m, (base + o.impostors) as u32),
        kill_distance: i32_at(m, (base + o.kill_distance) as u32),
        discussion_time: i32_at(m, (base + o.discussion_time) as u32),
        voting_time: i32_at(m, (base + o.voting_time) as u32),
        confirm_eject: bool_at(m, (base + o.confirm_eject) as u32),
        visual_tasks: bool_at(m, (base + o.visual_tasks) as u32),
        anonymous_voting: bool_at(m, (base + o.anonymous_voting) as u32),
        task_bar_updates: i32_at(m, (base + o.task_bar_updates) as u32),
    }
}

/// Reads a four-byte signed field of the struct based at `base`.
fn read_i32_field(mem: &MemoryImage, base: u32, off: u32) -> (r: Result<i32, CaptureError>)
    ensures
        match r {
            Ok(v) => u32_field_ok(mem@, base, off) && v == i32_at(mem@, (base + off) as u32),
            Err(e) => !u32_field_ok(mem@, base, off) && e == CaptureError::MemoryAccessFailed,
        },
{
    if off > u32::MAX - base {
        return Err(CaptureError::MemoryAccessFailed);
    }
    mem.read_i32(base + off)
}

/// Reads a four-byte unsigned field (a raw float bit pattern) of the
/// struct based at `base`.
fn read_u32_field(mem: &MemoryImage, base: u32, off: u32) -> (r: Result<u32, CaptureError>)
    ensures
        match r {
            Ok(v) => u32_field_ok(mem@, base, off) && v == u32_at(mem@, (base + off) as u32),
            Err(e) => !u32_field_ok(mem@, base, off) && e == CaptureError::MemoryAccessFailed,
        },
{
    if off > u32::MAX - base {
        return Err(CaptureError::MemoryAccessFailed);
    }
    mem.read_u32(base + off)
}

/// Reads a one-byte boolean field of the struct based at `base`.
fn read_bool_field(mem: &MemoryImage, base: u32, off: u32) -> (r: Result<bool, CaptureError>)
    ensures
        match r {
            Ok(v) => u8_field_ok(mem@, base, off) && v == bool_at(mem@, (base + off) as u32),
            Err(e) => !u8_field_ok(mem@, base, off) && e == CaptureError::MemoryAccessFailed,
        },
{
    if off > u32::MAX - base {
        return Err(CaptureError::MemoryAccessFailed);
    }
    let b = mem.read_u8(base + off)?;
    Ok(b != 0)
}

/// Reads every configuration field of the struct based at `base` into a
/// snapshot, in table order, failing as a unit if any field is not fully
/// readable.
pub fn read_fields(mem: &MemoryImage, base: u32, o: &Offsets) -> (r: Result<
    GameSettings,
    CaptureError,
>)
    ensures
        match r {
            Ok(s) => fields_readable(mem@, base, *o) && s == spec_fields(mem@, base, *o),
            Err(e) => !fields_readable(mem@, base, *o) && e == CaptureError::MemoryAccessFailed,
        },
{
    Ok(GameSettings {
        map: read_i32_field(mem, base, o.map)?,
        player_speed: read_u32_field(mem, base, o.player_speed)?,
        crewmate_vision: read_u32_field(mem, base, o.crewmate_vision)?,
        impostor_vision: read_u32_field(mem, base, o.impostor_vision)?,
        kill_cooldown: read_u32_field(mem, base, o.kill_cooldown)?,
        common_tasks: read_i32_field(mem, base, o.common_tasks)?,
        long_tasks: read_i32_field(mem, base, o.long_tasks)?,
        short_tasks: read_i32_field(mem, base, o.short_tasks)?,
        emergency_meeting: read_i32_field(mem, base, o.emergency_meeting)?,
        emergency_cooldown: read_i32_field(mem, base, o.emergency_cooldown)?,
        impostors: read_i32_field(mem, base, o.impostors)?,
        kill_distance: read_i32_field(mem, base, o.kill_distance)?,
        discussion_time: read_i32_field(mem, base, o.discussion_time)?,
        voting_time: read_i32_field(mem, base, o.voting_time)?,
        confirm_eject: read_bool_field(mem, base, o.confirm_eject)?,
        visual_tasks: read_bool_field(mem, base, o.visual_tasks)?,
        anonymous_voting: read_bool_field(mem, base, o.anonymous_voting)?,
        task_bar_updates: read_i32_field(mem, base, o.task_bar_updates)?,
    })
}

/// Writing of uncontrollable fields (the map identifier and the impostor
/// count) is disabled: mutating them live destabilizes the host process,
/// so snapshot writes skip them.
pub const ENABLE_UNCONTROLLABLE_PARAMS: bool = false;

/// Lowest field offset of the table: the struct's field span starts here.
pub const GAME_SETTINGS_SPAN_START: u32 = 0x10;

/// Length in bytes of the struct's field span, `[0x10, 0x54)`.
pub const GAME_SETTINGS_SPAN_LEN: u32 = 0x44;

/// A four-byte field at `base + off` holds exactly the unsigned value `v`.
pub open spec fn field_u32_is(m: Map<u32, u8>, base: u32, off: u32, v: u32) -> bool {
    &&& u32_field_ok(m, base, off)
    &&& u32_at(m, (base + off) as u32) == v
}

/// A four-byte field at `base + off` holds exactly the signed value `v`.
pub open spec fn field_i32_is(m: Map<u32, u8>, base: u32, off: u32, v: i32) -> bool {
    &&& u32_field_ok(m, base, off)
    &&& i32_at(m, (base + off) as u32) == v
}

/// A one-byte field at `base + off` holds the canonical byte encoding of
/// the boolean `v`: one for true, zero for false.
pub open spec fn field_bool_is(m: Map<u32, u8>, base: u32, off: u32, v: bool) -> bool {
    &&& u8_field_ok(m, base, off)
    &&& m[(base + off) as u32] == (if v { 1u8 } else { 0u8 })
}

/// The bytes in `[base + off, base + off + width)` are the same, in
/// presence and in value, in `m1` and `m2`.
pub open spec fn field_bytes_unchanged(
    m1: Map<u32, u8>,
    m2: Map<u32, u8>,
    base: u32,
    off: u32,
    width: int,
) -> bool {
    &&& forall|x: u32|
        base + off <= x < base + off + width ==> #[trigger] m2.contains_key(x)
            == m1.contains_key(x)
    &&& forall|x: u32|
        base + off <= x < base + off + width && m1.contains_key(x) ==> #[trigger] m2[x] == m1[x]
}

/// What one snapshot write does to memory: `m2` is `m1` with every
/// controllable field of the struct based at `base` set to the value of
/// `s`, the uncontrollable fields also set when `unc` is true and
/// byte-for-byte unchanged when it is false, the table's two padding gaps
/// unchanged, and every address outside the struct span unchanged.
pub open spec fn settings_written(
    m1: Map<u32, u8>,
    m2: Map<u32, u8>,
    base: u32,
    o: Offsets,
    s: GameSettings,
    unc: bool,
) -> bool {
    &&& field_u32_is(m2, base, o.player_speed, s.player_speed)
    &&& field_u32_is(m2, base, o.crewmate_vision, s.crewmate_vision)
    &&& field_u32_is(m2, base, o.impostor_vision, s.impostor_vision)
    &&& field_u32_is(m2, base, o.kill_cooldown, s.kill_cooldown)
    &&& field_i32_is(m2, base, o.common_tasks, s.common_tasks)
    &&& field_i32_is(m2, base, o.long_tasks, s.long_tasks)
    &&& field_i32_is(m2, base, o.short_tasks, s.short_tasks)
    &&& field_i32_is(m2, base, o.emergency_meeting, s.emergency_meeting)
    &&& field_i32_is(m2, base, o.emergency_cooldown, s.emergency_cooldown)
    &&& field_i32_is(m2, base, o.kill_distance, s.kill_distance)
    &&& field_i32_is(m2, base, o.discussion_time, s.discussion_time)
    &&& field_i32_is(m2, base, o.voting_time, s.voting_time)
    &&& field_bool_is(m2, base, o.confirm_eject, s.confirm_eject)
    &&& field_bool_is(m2, base, o.visual_tasks, s.visual_tasks)
    &&& field_bool_is(m2, base, o.anonymous_voting, s.anonymous_voting)
    &&& field_i32_is(m2, base, o.task_bar_updates, s.task_bar_updates)
    &&& if unc {
        &&& field_i32_is(m2, base, o.map, s.map)
        &&& field_i32_is(m2, base, o.impostors, s.impostors)
    } else {
        &&& field_bytes_unchanged(m1, m2, base, o.map, 4)
        &&& field_bytes_unchanged(m1, m2, base, o.impostors, 4)
    }
    &&& field_bytes_unchanged(m1, m2, base, 0x3C, 4)
    &&& field_bytes_unchanged(m1, m2, base, 0x4F, 1)
    &&& same_outside(m1, m2, base + 0x10, 0x44)
}

/// Writes a four-byte unsigned field of the struct based at `base`.
fn write_u32_field(mem: &mut MemoryImage, base: u32, off: u32, v: u32) -> (r: Result<
    (),
    CaptureError,
>)
    ensures
        match r {
            Ok(()) => {
                &&& base + off + 3 <= u32::MAX
                &&& field_u32_is(final(mem)@, base, off, v)
                &&& same_outside(old(mem)@, final(mem)@, base + off, 4)
            },
            Err(e) => {
                &&& base + off + 3 > u32::MAX
                &&& final(mem)@ == old(mem)@
                &&& e == CaptureError::MemoryAccessFailed
            },
        },
{
    if off > u32::MAX - base {
        return Err(CaptureError::MemoryAccessFailed);
    }
    mem.write_u32(base + off, v)
}

/// Writes a four-byte signed field of the struct based at `base`.
fn write_i32_field(mem: &mut MemoryImage, base: u32, off: u32, v: i32) -> (r: Result<
    (),
    CaptureError,
>)
    ensures
        match r {
            Ok(()) => {
                &&& base + off + 3 <= u32::MAX
                &&& field_i32_is(final(mem)@, base, off, v)
                &&& same_outside(old(mem)@, final(mem)@, base + off, 4)
            },
            Err(e) => {
                &&& base + off + 3 > u32::MAX
                &&& final(mem)@ == old(mem)@
                &&& e == CaptureError::MemoryAccessFailed
            },
        },
{
    if off > u32::MAX - base {
        return Err(CaptureError::MemoryAccessFailed);
    }
    mem.write_i32(base + off, v)
}

/// Writes a one-byte boolean field of the struct based at `base`, one
/// for true and zero for false.
fn write_bool_field(mem: &mut MemoryImage, base: u32, off: u32, v: bool) -> (r: Result<
    (),
    CaptureError,
>)
    ensures
        match r {
            Ok(()) => {
                &&& base + off <= u32::MAX
                &&& field_bool_is(final(mem)@, base, off, v)
                &&& same_outside(old(mem)@, final(mem)@, base + off, 1)
            },
            Err(e) => {
                &&& base + off > u32::MAX
                &&& final(mem)@ == old(mem)@
                &&& e == CaptureError::MemoryAccessFailed
            },
        },
{
    if off > u32::MAX - base {
        return Err(CaptureError::MemoryAccessFailed);
    }
    let b: u8 = if v {
        1
    } else {
        0
    };
    mem.write_u8(base + off, b);
    Ok(())
}

/// Writes every field of `s` into the struct based at `base`, in table
/// order, skipping the uncontrollable fields unless `unc` is set.  The
/// whole struct span is range-checked first, so a failure leaves memory
/// unchanged.
#[verifier::rlimit(100)]
pub fn set_fields(
    mem: &mut MemoryImage,
    base: u32,
    o: &Offsets,
    s: &GameSettings,
    unc: bool,
) -> (r: Result<(), CaptureError>)
    requires
        o.wf(),
    ensures
        match r {
            Ok(()) => {
                &&& base + 0x53 <= u32::MAX
                &&& settings_written(old(mem)@, final(mem)@, base, *o, *s, unc)
            },
            Err(e) => {
                &&& base + 0x53 > u32::MAX
                &&& final(mem)@ == old(mem)@
                &&& e == CaptureError::MemoryAccessFailed
            },
        },
{
    if base > u32::MAX - 0x53 {
        return Err(CaptureError::MemoryAccessFailed);
    }
    if unc {
        write_i32_field(mem, base, o.map, s.map)?;
    }
    write_u32_field(mem, base, o.player_speed, s.player_speed)?;
    write_u32_field(mem, base, o.crewmate_vision, s.crewmate_vision)?;
    write_u32_field(mem, base, o.impostor_vision, s.impostor_vision)?;
    write_u32_field(mem, base, o.kill_cooldown, s.kill_cooldown)?;
    write_i32_field(mem, base, o.common_tasks, s.common_tasks)?;
    write_i32_field(mem, base, o.long_tasks, s.long_tasks)?;
    write_i32_field(mem, base, o.short_tasks, s.short_tasks)?;
    write_i32_field(mem, base, o.emergency_meeting, s.emergency_meeting)?;
    write_i32_field(mem, base, o.emergency_cooldown, s.emergency_cooldown)?;
    if unc {
        write_i32_field(mem, base, o.impostors, s.impostors)?;
    }
    write_i32_field(mem, base, o.kill_distance, s.kill_distance)?;
    write_i32_field(mem, base, o.discussion_time, s.discussion_time)?;
    write_i32_field(mem, base, o.voting_time, s.voting_time)?;
    write_bool_field(mem, base, o.confirm_eject, s.confirm_eject)?;
    write_bool_field(mem, base, o.visual_tasks, s.visual_tasks)?;
    write_bool_field(mem, base, o.anonymous_voting, s.anonymous_voting)?;
    write_i32_field(mem, base, o.task_bar_updates, s.task_bar_updates)?;
    Ok(())
}

/// The snapshot currently stored in the live struct under memory `m`:
/// the pointer chain resolved from the module base, then every field read
/// from the resolved struct.  `None` when resolution fails or any field
/// byte is absent.
pub open spec fn spec_snapshot(m: Map<u32, u8>, module_base: u32, o: Offsets) -> Option<
    GameSettings,
> {
    match spec_resolve(m, module_base, o) {
        None => None,
        Some(b) => if fields_readable(m, b, o) {
            Some(spec_fields(m, b, o))
        } else {
            None
        },
    }
}

impl GameSettings {
    /// Reads the full snapshot from a memory image: resolves the pointer
    /// chain once, then reads every field in table order.  Fails as a
    /// unit when any access fails.
    pub fn read(mem: &MemoryImage, module_base: u32, offsets: &Offsets) -> (r: Result<
        GameSettings,
        CaptureError,
    >)
        ensures
            match r {
                Ok(s) => spec_snapshot(mem@, module_base, *offsets) == Some(s),
                Err(e) => {
                    &&& spec_snapshot(mem@, module_base, *offsets) is None
                    &&& e == CaptureError::MemoryAccessFailed
                },
            },
    {
        let base = base_addr(mem, module_base, offsets)?;
        read_fields(mem, base, offsets)
    }

    /// Writes this snapshot into a memory image: resolves the pointer
    /// chain once, then writes every field in table order, skipping the
    /// uncontrollable fields unless the build-time override is set.
    pub fn write(&self, mem: &mut MemoryImage, module_base: u32, offsets: &Offsets) -> (r: Result<
        (),
        CaptureError,
    >)
        requires
            offsets.wf(),
        ensures
            match spec_resolve(old(mem)@, module_base, *offsets) {
                Some(b) => match r {
                    Ok(()) => {
                        &&& b + 0x53 <= u32::MAX
                        &&& settings_written(
                            old(mem)@,
                            final(mem)@,
                            b,
                            *offsets,
                            *self,
                            ENABLE_UNCONTROLLABLE_PARAMS,
                        )
                    },
                    Err(e) => {
                        &&& b + 0x53 > u32::MAX
                        &&& final(mem)@ == old(mem)@
                        &&& e == CaptureError::MemoryAccessFailed
                    },
                },
                None => {
                    &&& r matches Err(e) && e == CaptureError::MemoryAccessFailed
                    &&& final(mem)@ == old(mem)@
                },
            },
    {
        let base = base_addr(mem, module_base, offsets)?;
        set_fields(mem, base, offsets, self, ENABLE_UNCONTROLLABLE_PARAMS)
    }
}

/// Round trip of one snapshot through memory: after a write of `s` (with
/// the uncontrollable override off) into a struct whose fields were
/// readable, every field reads back as written, and the two
/// uncontrollable fields read back as the values they held before the
/// write.
pub proof fn lemma_snapshot_round_trip(
    m1: Map<u32, u8>,
    m2: Map<u32, u8>,
    base: u32,
    o: Offsets,
    s: GameSettings,
    prior: GameSettings,
)
    requires
        o.wf(),
        base + 0x53 <= u32::MAX,
        settings_written(m1, m2, base, o, s, false),
        fields_readable(m1, base, o),
        prior == spec_fields(m1, base, o),
    ensures
        fields_readable(m2, base, o),
        spec_fields(m2, base, o) == (GameSettings { map: prior.map, impostors: prior.impostors, ..s }),
{
}

/// One write the OS-backed accessor must perform to store a snapshot in
/// the live process: a minimum-width transfer of one field.
#[derive(Clone, Copy, Debug, PartialEq, Eq, Structural)]
pub enum MemWrite {
    /// Store one byte at the absolute address.
    Byte { addr: u32, value: u8 },
    /// Store a 32-bit value little-endian at the absolute address.
    Word { addr: u32, value: u32 },
}

/// The ordered transfers that store snapshot `s` into the live struct
/// based at `base`: one minimum-width write per field, in table order,
/// with the uncontrollable fields included only when `unc` is set.
pub open spec fn spec_write_plan(s: GameSettings, base: u32, unc: bool) -> Seq<MemWrite> {
    let head = if unc {
        seq![MemWrite::Word { addr: (base + 0x10) as u32, value: s.map as u32 }]
    } else {
        Seq::<MemWrite>::empty()
    };
    let mid = if unc {
        seq![MemWrite::Word { addr: (base + 0x38) as u32, value: s.impostors as u32 }]
    } else {
        Seq::<MemWrite>::empty()
    };
    head + seq![
        MemWrite::Word { addr: (base + 0x14) as u32, value: s.player_speed },
        MemWrite::Word { addr: (base + 0x18) as u32, value: s.crewmate_vision },
        MemWrite::Word { addr: (base + 0x1C) as u32, value: s.impostor_vision },
        MemWrite::Word { addr: (base + 0x20) as u32, value: s.kill_cooldown },
        MemWrite::Word { addr: (base + 0x24) as u32, value: s.common_tasks as u32 },
        MemWrite::Word { addr: (base + 0x28) as u32, value: s.long_tasks as u32 },
        MemWrite::Word { addr: (base + 0x2C) as u32, value: s.short_tasks as u32 },
        MemWrite::Word { addr: (base + 0x30) as u32, value: s.emergency_meeting as u32 },
        MemWrite::Word { addr: (base + 0x34) as u32, value: s.emergency_cooldown as u32 },
    ] + mid + seq![
        MemWrite::Word { addr: (base + 0x40) as u32, value: s.kill_distance as u32 },
        MemWrite::Word { addr: (base + 0x44) as u32, value: s.discussion_time as u32 },
        MemWrite::Word { addr: (base + 0x48) as u32, value: s.voting_time as u32 },
        MemWrite::Byte { addr: (base + 0x4C) as u32, value: if s.confirm_eject { 1u8 } else { 0u8 } },
        MemWrite::Byte { addr: (base + 0x4D) as u32, value: if s.visual_tasks { 1u8 } else { 0u8 } },
        MemWrite::Byte { addr: (base + 0x4E) as u32, value: if s.anonymous_voting { 1u8 } else { 0u8 } },
        MemWrite::Word { addr: (base + 0x50) as u32, value: s.task_bar_updates as u32 },
    ]
}

/// Builds the ordered write plan that stores `s` into the live struct
/// based at `base`, for an accessor that performs each transfer itself.
/// Fails without a plan when the struct span leaves the address space;
/// no transfer may be attempted in that case.
pub fn write_plan(s: &GameSettings, base: u32, unc: bool) -> (r: Option<Vec<MemWrite>>)
    ensures
        match r {
            Some(plan) => base + 0x53 <= u32::MAX && plan@ =~= spec_write_plan(*s, base, unc),
            None => base + 0x53 > u32::MAX,
        },
{
    if base > u32::MAX - 0x53 {
        return None;
    }
    let mut plan: Vec<MemWrite> = Vec::new();
    if unc {
        plan.push(MemWrite::Word { addr: base + 0x10, value: s.map as u32 });
    }
    plan.push(MemWrite::Word { addr: base + 0x14, value: s.player_speed });
    plan.push(MemWrite::Word { addr: base + 0x18, value: s.crewmate_vision });
    plan.push(MemWrite::Word { addr: base + 0x1C, value: s.impostor_vision });
    plan.push(MemWrite::Word { addr: base + 0x20, value: s.kill_cooldown });
    plan.push(MemWrite::Word { addr: base + 0x24, value: s.common_tasks as u32 });
    plan.push(MemWrite::Word { addr: base + 0x28, value: s.long_tasks as u32 });
    plan.push(MemWrite::Word { addr: base + 0x2C, value: s.short_tasks as u32 });
    plan.push(MemWrite::Word { addr: base + 0x30, value: s.emergency_meeting as u32 });
    plan.push(MemWrite::Word { addr: base + 0x34, value: s.emergency_cooldown as u32 });
    if unc {
        plan.push(MemWrite::Word { addr: base + 0x38, value: s.impostors as u32 });
    }
    plan.push(MemWrite::Word { addr: base + 0x40, value: s.kill_distance as u32 });
    plan.push(MemWrite::Word { addr: base + 0x44, value: s.discussion_time as u32 });
    plan.push(MemWrite::Word { addr: base + 0x48, value: s.voting_time as u32 });
    plan.push(
        MemWrite::Byte {
            addr: base + 0x4C,
            value: if s.confirm_eject {
                1
            } else {
                0
            },
        },
    );
    plan.push(
        MemWrite::Byte {
            addr: base + 0x4D,
            value: if s.visual_tasks {
                1
            } else {
                0
            },
        },
    );
    plan.push(
        MemWrite::Byte {
            addr: base + 0x4E,
            value: if s.anonymous_voting {
                1
            } else {
                0
            },
        },
    );
    plan.push(MemWrite::Word { addr: base + 0x50, value: s.task_bar_updates as u32 });
    Some(plan)
}

/// A capture session's typed access to the live settings struct: the
/// field table instantiated with the base offset that the catalog records
/// for the captured binary's fingerprint.
#[derive(Clone, Copy, Debug, PartialEq, Eq)]
pub struct AUProcessReadWrite {
    /// The resolved offset table of this session.
    pub offsets: Offsets,
}

impl AUProcessReadWrite {
    /// Binds a session's field table by looking the fingerprint up in
    /// the loaded catalog.  Succeeds exactly when the catalog has an
    /// entry for the fingerprint, and then carries precisely the base
    /// offset of that entry; an unknown fingerprint yields `None` before
    /// any memory access.
    pub fn new(au_capture_offsets: &AUCaptureOffsets, dll_hash: &str) -> (r: Option<Self>)
        ensures
            match r {
                Some(rw) => {
                    &&& spec_lookup(au_capture_offsets.entries@, dll_hash@) == Some(
                        rw.offsets.game_options_offset,
                    )
                    &&& rw.offsets.wf()
                },
                None => spec_lookup(au_capture_offsets.entries@, dll_hash@) is None,
            },
    {
        match au_capture_offsets.game_options_offset(dll_hash) {
            Some(offset) => Some(AUProcessReadWrite { offsets: Offsets::new(offset) }),
            None => None,
        }
    }

    /// Reads the live snapshot through this session's table.
    pub fn game_settings(&self, mem: &MemoryImage, module_base: u32) -> (r: Result<
        GameSettings,
        CaptureError,
    >)
        ensures
            match r {
                Ok(s) => spec_snapshot(mem@, module_base, self.offsets) == Some(s),
                Err(e) => {
                    &&& spec_snapshot(mem@, module_base, self.offsets) is None
                    &&& e == CaptureError::MemoryAccessFailed
                },
            },
    {
        GameSettings::read(mem, module_base, &self.offsets)
    }

    /// Writes a snapshot through this session's table.
    pub fn set_game_settings(&self, mem: &mut MemoryImage, module_base: u32, value: GameSettings) -> (r: Result<
        (),
        CaptureError,
    >)
        requires
            self.offsets.wf(),
        ensures
            match spec_resolve(old(mem)@, module_base, self.offsets) {
                Some(b) => match r {
                    Ok(()) => {
                        &&& b + 0x53 <= u32::MAX
                        &&& settings_written(
                            old(mem)@,
                            final(mem)@,
                            b,
                            self.offsets,
                            value,
                            ENABLE_UNCONTROLLABLE_PARAMS,
                        )
                    },
                    Err(e) => {
                        &&& b + 0x53 > u32::MAX
                        &&& final(mem)@ == old(mem)@
                        &&& e == CaptureError::MemoryAccessFailed
                    },
                },
                None => {
                    &&& r matches Err(e) && e == CaptureError::MemoryAccessFailed
                    &&& final(mem)@ == old(mem)@
                },
            },
    {
        value.write(mem, module_base, &self.offsets)
    }
}

} // verus!
