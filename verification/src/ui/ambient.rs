//! The ambient sound slider: ten levels, five transparency strengths on the
//! left and five noise-canceling strengths on the right, with `Normal` in the
//! middle slot.

use vstd::prelude::*;

use crate::domain::{
    changes_applied, clamp_level, lemma_ambient_level_read_back, setting_changes_spec, snapshot_spec,
    DeviceCommand, DeviceSnapshot, ListeningMode, SettingReadings, SnapshotView,
};

verus! {

/// What a click on the slider picked.
#[derive(Clone, Copy, Debug, PartialEq, Eq, Structural)]
pub enum AmbientSelection {
    Level(u8),
    Normal,
}

/// The level of slot `slot` of the eleven slider slots: slots 0 to 4 are
/// levels 1 to 5, slot 5 is `Normal`, slots 6 to 10 are levels 6 to 10.
pub open spec fn slot_level_spec(slot: int) -> Option<u8> {
    if 0 <= slot <= 4 {
        Some((slot + 1) as u8)
    } else if slot == 5 {
        None
    } else if 6 <= slot <= 10 {
        Some(slot as u8)
    } else {
        None
    }
}

/// The level drawn in slot `slot` (`None` for the middle `Normal` slot).
pub fn slot_level(slot: usize) -> (level: Option<u8>)
    requires
        slot <= 10,
    ensures
        level == slot_level_spec(slot as int),
{
    if slot <= 4 {
        Some((slot + 1) as u8)
    } else if slot == 5 {
        None
    } else {
        Some(slot as u8)
    }
}

/// Whether the middle `Normal` slot is lit: in `Normal` mode, or when a
/// noise-canceling level is selected.
pub open spec fn normal_active_spec(mode: ListeningMode, current: Option<u8>) -> bool {
    mode == ListeningMode::Normal || (current matches Some(level) && level >= 6)
}

pub fn normal_active(mode: ListeningMode, current: Option<u8>) -> (active: bool)
    ensures
        active == normal_active_spec(mode, current),
{
    mode == ListeningMode::Normal || match current {
        Some(level) => level >= 6,
        None => false,
    }
}

/// Whether the slot showing `level` is coloured: in `Normal` mode the whole
/// transparency half is, otherwise every level up to the selected one.
pub open spec fn slot_colored_spec(level: u8, current: Option<u8>, mode: ListeningMode) -> bool {
    if mode == ListeningMode::Normal {
        level <= 5
    } else {
        current matches Some(selected) && level <= selected
    }
}

pub fn slot_colored(level: u8, current: Option<u8>, mode: ListeningMode) -> (colored: bool)
    ensures
        colored == slot_colored_spec(level, current, mode),
{
    if mode == ListeningMode::Normal {
        level <= 5
    } else {
        match current {
            Some(selected) => level <= selected,
            None => false,
        }
    }
}

/// What a click on slot `slot` (forced into `0..=10`) asks for: the middle
/// slot asks for `Normal` unless that is already the mode; any other slot asks
/// for its level unless that level is already selected outside `Normal` mode.
pub open spec fn slider_pick_spec(slot: i32, current: Option<u8>, mode: ListeningMode) -> Option<
    AmbientSelection,
> {
    let slot = if slot < 0 {
        0
    } else if slot > 10 {
        10
    } else {
        slot as int
    };
    if slot == 5 {
        if mode != ListeningMode::Normal {
            Some(AmbientSelection::Normal)
        } else {
            None
        }
    } else {
        let level = (if slot < 5 { slot + 1 } else { slot }) as u8;
        if current != Some(level) || mode == ListeningMode::Normal {
            Some(AmbientSelection::Level(level))
        } else {
            None
        }
    }
}

/// The selection made by a click on slot `slot`.
pub fn slider_pick(slot: i32, current: Option<u8>, mode: ListeningMode) -> (picked: Option<
    AmbientSelection,
>)
    ensures
        picked == slider_pick_spec(slot, current, mode),
{
    let slot = if slot < 0 {
        0
    } else if slot > 10 {
        10
    } else {
        slot
    };
    if slot == 5 {
        if mode != ListeningMode::Normal {
            Some(AmbientSelection::Normal)
        } else {
            None
        }
    } else {
        let level = (if slot < 5 {
            slot + 1
        } else {
            slot
        }) as u8;
        let already = match current {
            Some(selected) => selected == level,
            None => false,
        };
        if !already || mode == ListeningMode::Normal {
            Some(AmbientSelection::Level(level))
        } else {
            None
        }
    }
}

/// A level picked on the slider is the level of the clicked slot.
pub proof fn lemma_slider_level_is_slot_level(slot: i32, current: Option<u8>, mode: ListeningMode)
    requires
        0 <= slot <= 10,
        slider_pick_spec(slot, current, mode) matches Some(AmbientSelection::Level(_)),
    ensures
        slider_pick_spec(slot, current, mode) == Some(
            AmbientSelection::Level(slot_level_spec(slot as int)->0),
        ),
        1 <= slot_level_spec(slot as int)->0 <= 10,
{
}

/// The listening mode that goes with a slider level.
pub open spec fn level_mode(level: u8) -> ListeningMode {
    if level <= 5 {
        ListeningMode::Transparency
    } else {
        ListeningMode::NoiseCanceling
    }
}

/// Shows `selection` in `snapshot` at once and returns the command that makes
/// the device follow: a level sets the level and its mode, `Normal` clears the
/// level.
pub fn apply_ambient_selection(snapshot: &mut DeviceSnapshot, selection: AmbientSelection) -> (command:
    DeviceCommand)
    ensures
        match selection {
            AmbientSelection::Level(level) => {
                &&& final(snapshot)@ == (SnapshotView {
                    ambient_level: Some(level),
                    listening_mode: level_mode(level),
                    ..old(snapshot)@
                })
                &&& command == DeviceCommand::SetAmbientLevel(level)
            },
            AmbientSelection::Normal => {
                &&& final(snapshot)@ == (SnapshotView {
                    ambient_level: None,
                    listening_mode: ListeningMode::Normal,
                    ..old(snapshot)@
                })
                &&& command == DeviceCommand::SetListeningMode(ListeningMode::Normal)
            },
        },
{
    match selection {
        AmbientSelection::Level(level) => {
            snapshot.ambient_level = Some(level);
            snapshot.listening_mode = if level <= 5 {
                ListeningMode::Transparency
            } else {
                ListeningMode::NoiseCanceling
            };
            DeviceCommand::SetAmbientLevel(level)
        },
        AmbientSelection::Normal => {
            snapshot.listening_mode = ListeningMode::Normal;
            snapshot.ambient_level = None;
            DeviceCommand::SetListeningMode(ListeningMode::Normal)
        },
    }
}

/// Picking a listening mode in the mode-only picker: shows it at once and
/// returns the command that sets it.
pub fn apply_mode_choice(snapshot: &mut DeviceSnapshot, mode: ListeningMode) -> (command:
    DeviceCommand)
    ensures
        final(snapshot)@ == (SnapshotView { listening_mode: mode, ..old(snapshot)@ }),
        command == DeviceCommand::SetListeningMode(mode),
{
    snapshot.listening_mode = mode;
    DeviceCommand::SetListeningMode(mode)
}


/// A level picked on the slider is what the device shows once it has taken
/// the writes the pick sends: the same level, in the mode the slider shows
/// for it at once.
pub proof fn lemma_slider_pick_reads_back(
    slot: i32,
    current: Option<u8>,
    mode: ListeningMode,
    level: u8,
    readings: SettingReadings,
)
    requires
        slider_pick_spec(slot, current, mode) == Some(AmbientSelection::Level(level)),
        changes_applied(
            setting_changes_spec(DeviceCommand::SetAmbientLevel(level)),
            readings,
        ),
    ensures
        snapshot_spec(readings).ambient_level == Some(level),
        snapshot_spec(readings).listening_mode == level_mode(level),
{
    lemma_ambient_level_read_back(level, readings);
    assert(clamp_level(level) == level);
}


/// What a click on the slider picks: the middle slot picks `Normal` exactly
/// when the mode is not `Normal` already; any other slot picks the level
/// drawn in it, and does nothing exactly when that level is already the
/// selected one outside `Normal` mode. A click past either end counts as a
/// click on the end slot.
pub proof fn lemma_slider_pick_outcome(slot: i32, current: Option<u8>, mode: ListeningMode)
    ensures
        0 <= slot <= 10 && slot == 5 && mode != ListeningMode::Normal ==> slider_pick_spec(
            slot,
            current,
            mode,
        ) == Some(AmbientSelection::Normal),
        0 <= slot <= 10 && slot == 5 && mode == ListeningMode::Normal ==> slider_pick_spec(
            slot,
            current,
            mode,
        ) is None,
        0 <= slot <= 10 && slot != 5 ==> {
            &&& slot_level_spec(slot as int) matches Some(drawn)
            &&& slider_pick_spec(slot, current, mode) is None <==> (mode != ListeningMode::Normal
                && current == Some(drawn))
            &&& slider_pick_spec(slot, current, mode) is Some ==> slider_pick_spec(
                slot,
                current,
                mode,
            ) == Some(AmbientSelection::Level(drawn))
        },
        slot < 0 ==> slider_pick_spec(slot, current, mode) == slider_pick_spec(0, current, mode),
        slot > 10 ==> slider_pick_spec(slot, current, mode) == slider_pick_spec(10, current, mode),
{
}

} // verus!
