//! The configuration snapshot: every field of the live settings struct,
//! carried with a semantic type.
//!
//! Counts are 32-bit signed integers, flags are booleans, and ratio fields
//! (speeds, visions, the kill cooldown) are 32-bit float values carried as
//! their raw IEEE-754 bit pattern: float values never leave this crate
//! decoded, so a read reproduces the exact bit pattern stored in the
//! process and a write stores exactly the bits of the snapshot.  The
//! caller reinterprets the bits where it needs the numeric value.

use vstd::prelude::*;

verus! {

/// A complete record of the configuration field values at one instant.
/// It has no identity beyond its values.
#[derive(Clone, Copy, Debug, PartialEq, Eq, Structural)]
pub struct GameSettings {
    /// Map identifier; an uncontrollable field, skipped by snapshot
    /// writes unless the override is set.
    pub map: i32,
    /// Player speed ratio, as IEEE-754 bits.
    pub player_speed: u32,
    /// Crewmate vision ratio, as IEEE-754 bits.
    pub crewmate_vision: u32,
    /// Impostor vision ratio, as IEEE-754 bits.
    pub impostor_vision: u32,
    /// Kill cooldown in seconds, as IEEE-754 bits.
    pub kill_cooldown: u32,
    /// Number of common tasks.
    pub common_tasks: i32,
    /// Number of long tasks.
    pub long_tasks: i32,
    /// Number of short tasks.
    pub short_tasks: i32,
    /// Number of emergency meetings per player.
    pub emergency_meeting: i32,
    /// Emergency meeting cooldown in seconds.
    pub emergency_cooldown: i32,
    /// Impostor count; an uncontrollable field, skipped by snapshot
    /// writes unless the override is set.
    pub impostors: i32,
    /// Kill distance setting.
    pub kill_distance: i32,
    /// Discussion time in seconds.
    pub discussion_time: i32,
    /// Voting time in seconds.
    pub voting_time: i32,
    /// Whether ejects are confirmed.
    pub confirm_eject: bool,
    /// Whether task completion is visible.
    pub visual_tasks: bool,
    /// Whether votes are anonymous.
    pub anonymous_voting: bool,
    /// Task bar update mode.
    pub task_bar_updates: i32,
}

impl Default for GameSettings {
    /// The all-zero snapshot.
    fn default() -> (r: Self)
        ensures
            r == (GameSettings {
                map: 0,
                player_speed: 0,
                crewmate_vision: 0,
                impostor_vision: 0,
                kill_cooldown: 0,
                common_tasks: 0,
                long_tasks: 0,
                short_tasks: 0,
                emergency_meeting: 0,
                emergency_cooldown: 0,
                impostors: 0,
                kill_distance: 0,
                discussion_time: 0,
                voting_time: 0,
                confirm_eject: false,
                visual_tasks: false,
                anonymous_voting: false,
                task_bar_updates: 0,
            }),
    {
        GameSettings {
            map: 0,
            player_speed: 0,
            crewmate_vision: 0,
            impostor_vision: 0,
            kill_cooldown: 0,
            common_tasks: 0,
            long_tasks: 0,
            short_tasks: 0,
            emergency_meeting: 0,
            emergency_cooldown: 0,
            impostors: 0,
            kill_distance: 0,
            discussion_time: 0,
            voting_time: 0,
            confirm_eject: false,
            visual_tasks: false,
            anonymous_voting: false,
            task_bar_updates: 0,
        }
    }
}

} // verus!
