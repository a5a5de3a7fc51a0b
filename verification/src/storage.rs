//! The preset list: an ordered list of named presets, each optionally
//! holding one stored snapshot.
//!
//! Loading and saving the list on disk is the surrounding application's
//! concern; this module holds the list's shape and the caller-facing
//! operations on it: renaming a preset, storing a captured snapshot at an
//! index, and retrieving a stored snapshot for a write-back.

use vstd::prelude::*;
use vstd::string::StringExecFns;

use crate::game_settings::GameSettings;

verus! {

/// One preset: a caller-chosen name and, once something was captured
/// into it, a stored snapshot.
#[derive(Clone, Debug, PartialEq, Eq)]
pub struct GameSettingsListItem {
    /// The caller-chosen preset name.
    pub name: String,
    /// The stored snapshot, absent until one is captured into this slot.
    pub game_settings: Option<GameSettings>,
}

/// The whole preset list, loaded and saved as one value.
#[derive(Clone, Debug, PartialEq, Eq)]
pub struct Storage {
    /// The presets, in display order.
    pub game_settings_list: Vec<GameSettingsListItem>,
}

impl Default for Storage {
    /// The fresh list: ten numbered presets with nothing stored.
    fn default() -> (r: Self)
        ensures
            r.game_settings_list@.len() == 10,
            forall|i: int|
                0 <= i < 10 ==> #[trigger] r.game_settings_list@[i].game_settings is None,
            r.game_settings_list@[0].name@ == "Settings 1"@,
            r.game_settings_list@[1].name@ == "Settings 2"@,
            r.game_settings_list@[2].name@ == "Settings 3"@,
            r.game_settings_list@[3].name@ == "Settings 4"@,
            r.game_settings_list@[4].name@ == "Settings 5"@,
            r.game_settings_list@[5].name@ == "Settings 6"@,
            r.game_settings_list@[6].name@ == "Settings 7"@,
            r.game_settings_list@[7].name@ == "Settings 8"@,
            r.game_settings_list@[8].name@ == "Settings 9"@,
            r.game_settings_list@[9].name@ == "Settings 10"@,
    {
        let mut list: Vec<GameSettingsListItem> = Vec::new();
        list.push(GameSettingsListItem { name: String::from_str("Settings 1"), game_settings: None });
        list.push(GameSettingsListItem { name: String::from_str("Settings 2"), game_settings: None });
        list.push(GameSettingsListItem { name: String::from_str("Settings 3"), game_settings: None });
        list.push(GameSettingsListItem { name: String::from_str("Settings 4"), game_settings: None });
        list.push(GameSettingsListItem { name: String::from_str("Settings 5"), game_settings: None });
        list.push(GameSettingsListItem { name: String::from_str("Settings 6"), game_settings: None });
        list.push(GameSettingsListItem { name: String::from_str("Settings 7"), game_settings: None });
        list.push(GameSettingsListItem { name: String::from_str("Settings 8"), game_settings: None });
        list.push(GameSettingsListItem { name: String::from_str("Settings 9"), game_settings: None });
        list.push(
            GameSettingsListItem { name: String::from_str("Settings 10"), game_settings: None },
        );
        Storage { game_settings_list: list }
    }
}

impl Storage {
    /// How many presets the list holds.
    pub fn len(&self) -> (r: usize)
        ensures
            r == self.game_settings_list@.len(),
    {
        self.game_settings_list.len()
    }

    /// Renames the preset at `idx`; everything else is unchanged.
    pub fn set_game_settings_name(&mut self, idx: usize, name: String)
        requires
            idx < old(self).game_settings_list@.len(),
        ensures
            final(self).game_settings_list@ == old(self).game_settings_list@.update(
                idx as int,
                GameSettingsListItem {
                    name,
                    game_settings: old(self).game_settings_list@[idx as int].game_settings,
                },
            ),
    {
        self.game_settings_list[idx].name = name;
    }

    /// Stores a captured snapshot in the preset at `idx`; the preset
    /// keeps its name and everything else is unchanged.
    pub fn store_game_settings(&mut self, idx: usize, s: GameSettings)
        requires
            idx < old(self).game_settings_list@.len(),
        ensures
            final(self).game_settings_list@ == old(self).game_settings_list@.update(
                idx as int,
                GameSettingsListItem {
                    name: old(self).game_settings_list@[idx as int].name,
                    game_settings: Some(s),
                },
            ),
    {
        self.game_settings_list[idx].game_settings = Some(s);
    }

    /// The snapshot stored in the preset at `idx`, or `None` when
    /// nothing was captured into it.
    pub fn game_settings_at(&self, idx: usize) -> (r: Option<GameSettings>)
        requires
            idx < self.game_settings_list@.len(),
        ensures
            r == self.game_settings_list@[idx as int].game_settings,
    {
        self.game_settings_list[idx].game_settings
    }
}

} // verus!
