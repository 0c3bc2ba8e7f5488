use std::collections::HashMap;

use soundcore_control::domain::{
    snapshot_from_settings, ListeningMode, Range, Select, Setting, SettingId,
};

fn ambient_mode(value: &str) -> Setting {
    Setting::Select {
        setting: Select {
            options: vec!["NoiseCanceling".into(), "Transparency".into(), "Normal".into()],
            localized_options: vec![
                "Noise Canceling".into(),
                "Transparency".into(),
                "Normal".into(),
            ],
        },
        value: value.to_owned(),
    }
}

fn label(id: SettingId) -> String {
    format!("{id:?}")
}

#[test]
fn keeps_hardware_level_available_when_starting_in_normal_mode() {
    let settings = HashMap::from([
        (SettingId::AmbientSoundMode, ambient_mode("Normal")),
        (
            SettingId::ManualTransparency,
            Setting::I32Range { setting: Range { start: 1, end: 5, step: 1 }, value: 3 },
        ),
    ]);

    let snapshot = snapshot_from_settings(|id| settings.get(&id).cloned(), label);

    assert_eq!(snapshot.listening_mode, ListeningMode::Normal);
    assert_eq!(snapshot.ambient_level, Some(3));
}

#[test]
fn shows_hardware_level_when_mode_and_manual_range_are_temporarily_inconsistent() {
    let settings = HashMap::from([
        (SettingId::AmbientSoundMode, ambient_mode("NoiseCanceling")),
        (
            SettingId::ManualTransparency,
            Setting::I32Range { setting: Range { start: 1, end: 5, step: 1 }, value: 5 },
        ),
    ]);

    let snapshot = snapshot_from_settings(|id| settings.get(&id).cloned(), label);

    assert_eq!(snapshot.listening_mode, ListeningMode::NoiseCanceling);
    assert_eq!(snapshot.ambient_level, Some(10));
}
