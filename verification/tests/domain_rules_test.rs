use std::collections::HashMap;

use soundcore_control::domain::{
    parse_listening_mode, setting_changes, snapshot_from_settings, ControlValue, DeviceCommand,
    ListeningMode, Range, Select, Setting, SettingId, Value,
};

fn no_label(id: SettingId) -> String {
    format!("{id:?}")
}

fn battery_only(setting: Setting) -> Option<u8> {
    snapshot_from_settings(
        |id| (id == SettingId::BatteryLevelLeft).then(|| setting.clone()),
        no_label,
    )
    .battery_left
}

fn info(value: &str) -> Setting {
    Setting::Information { value: value.into(), translated_value: String::new() }
}

fn strength(value: i32) -> Setting {
    Setting::I32Range { setting: Range { start: 1, end: 5, step: 1 }, value }
}

fn mode(value: &str) -> Setting {
    Setting::Select {
        setting: Select { options: vec![value.into()], localized_options: vec![] },
        value: value.into(),
    }
}

/// Applies setting writes to a map of settings the way a device would.
fn apply(settings: &mut HashMap<SettingId, Setting>, changes: Vec<(SettingId, Value)>) {
    for (id, value) in changes {
        let setting = match value {
            Value::String(text) => mode(&text),
            Value::I32(n) => strength(n),
            other => panic!("unexpected write {other:?}"),
        };
        settings.insert(id, setting);
    }
}

#[test]
fn listening_mode_names_round_trip() {
    for m in [ListeningMode::NoiseCanceling, ListeningMode::Transparency, ListeningMode::Normal] {
        let name = soundcore_control::domain::listening_mode_value(m);
        assert_eq!(parse_listening_mode(name), m);
    }
    assert_eq!(parse_listening_mode("Adaptive"), ListeningMode::Normal);
    assert_eq!(parse_listening_mode("noisecanceling"), ListeningMode::Normal);
}

#[test]
fn ambient_levels_are_clamped_and_split_at_five() {
    assert_eq!(
        setting_changes(DeviceCommand::SetAmbientLevel(0)),
        setting_changes(DeviceCommand::SetAmbientLevel(1))
    );
    assert_eq!(
        setting_changes(DeviceCommand::SetAmbientLevel(200)),
        setting_changes(DeviceCommand::SetAmbientLevel(10))
    );
    assert_eq!(
        setting_changes(DeviceCommand::SetAmbientLevel(5)),
        vec![
            (SettingId::AmbientSoundMode, Value::String("Transparency".into())),
            (SettingId::ManualTransparency, Value::I32(1)),
        ]
    );
    assert_eq!(
        setting_changes(DeviceCommand::SetAmbientLevel(6)),
        vec![
            (SettingId::AmbientSoundMode, Value::String("NoiseCanceling".into())),
            (SettingId::ManualNoiseCanceling, Value::I32(1)),
        ]
    );
}

#[test]
fn other_commands_write_one_setting() {
    assert_eq!(setting_changes(DeviceCommand::Disconnect), vec![]);
    assert_eq!(
        setting_changes(DeviceCommand::SetToggle(SettingId::Ldac, true)),
        vec![(SettingId::Ldac, Value::Bool(true))]
    );
    assert_eq!(
        setting_changes(DeviceCommand::SetSelect {
            id: SettingId::AutoPowerOff,
            value: None,
            optional: true
        }),
        vec![(SettingId::AutoPowerOff, Value::OptionalString(None))]
    );
    assert_eq!(
        setting_changes(DeviceCommand::SetSelect {
            id: SettingId::EasyChatWaitTime,
            value: None,
            optional: false
        }),
        vec![(SettingId::EasyChatWaitTime, Value::String(String::new()))]
    );
    assert_eq!(
        setting_changes(DeviceCommand::SetSelect {
            id: SettingId::LeftLongPress,
            value: Some("VoiceAssistant".into()),
            optional: true
        }),
        vec![(SettingId::LeftLongPress, Value::OptionalString(Some("VoiceAssistant".into())))]
    );
}

#[test]
fn battery_levels_are_percentages() {
    assert_eq!(battery_only(strength(-5)), Some(0));
    assert_eq!(battery_only(strength(150)), Some(100));
    assert_eq!(battery_only(strength(42)), Some(42));
    assert_eq!(battery_only(info("7/10")), Some(70));
    assert_eq!(battery_only(info("1/3")), Some(33));
    assert_eq!(battery_only(info("2/3")), Some(67));
    assert_eq!(battery_only(info("+5/10")), Some(50));
    assert_eq!(battery_only(info("12/10")), Some(100));
    assert_eq!(battery_only(info("5/0")), None);
    assert_eq!(battery_only(info("-5/10")), None);
    assert_eq!(battery_only(info("5/10/2")), None);
    assert_eq!(battery_only(info("50%")), None);
    assert_eq!(battery_only(info("70000/10")), None);
    assert_eq!(battery_only(Setting::Toggle { value: true }), None);
}

#[test]
fn ambient_level_falls_back_to_the_other_strength() {
    let settings = HashMap::from([
        (SettingId::AmbientSoundMode, mode("Transparency")),
        (SettingId::ManualNoiseCanceling, strength(2)),
    ]);
    let snapshot = snapshot_from_settings(|id| settings.get(&id).cloned(), no_label);
    assert_eq!(snapshot.ambient_level, Some(4));

    let settings = HashMap::from([
        (SettingId::AmbientSoundMode, mode("NoiseCanceling")),
        (SettingId::ManualNoiseCanceling, strength(2)),
        (SettingId::ManualTransparency, strength(5)),
    ]);
    let snapshot = snapshot_from_settings(|id| settings.get(&id).cloned(), no_label);
    assert_eq!(snapshot.ambient_level, Some(7));
}

#[test]
fn written_ambient_level_reads_back() {
    for level in 1..=10u8 {
        let mut settings = HashMap::from([
            (SettingId::ManualNoiseCanceling, strength(3)),
            (SettingId::ManualTransparency, strength(3)),
        ]);
        apply(&mut settings, setting_changes(DeviceCommand::SetAmbientLevel(level)));
        let snapshot = snapshot_from_settings(|id| settings.get(&id).cloned(), no_label);
        assert_eq!(snapshot.ambient_level, Some(level));
        let expected = if level <= 5 {
            ListeningMode::Transparency
        } else {
            ListeningMode::NoiseCanceling
        };
        assert_eq!(snapshot.listening_mode, expected);
    }
}

#[test]
fn controls_keep_list_order_and_skip_other_settings() {
    let select = Select {
        options: vec!["a".into(), "b".into()],
        localized_options: vec!["A".into()],
    };
    let settings = HashMap::from([
        (SettingId::SoundLeakCompensation, Setting::Toggle { value: false }),
        (SettingId::WindNoiseSuppression, Setting::Toggle { value: true }),
        (SettingId::Ldac, Setting::Unsupported),
        (
            SettingId::RightSlideDown,
            Setting::OptionalSelect { setting: select, value: None },
        ),
    ]);
    let snapshot = snapshot_from_settings(|id| settings.get(&id).cloned(), no_label);
    assert_eq!(snapshot.daily_controls.len(), 2);
    assert_eq!(snapshot.daily_controls[0].id, SettingId::WindNoiseSuppression);
    assert_eq!(snapshot.daily_controls[1].id, SettingId::SoundLeakCompensation);
    assert_eq!(snapshot.earbud_controls.len(), 1);
    assert_eq!(snapshot.earbud_controls[0].label, "RightSlideDown");
    match &snapshot.earbud_controls[0].value {
        ControlValue::Select { value, options, optional } => {
            assert_eq!(value, &None);
            assert!(*optional);
            assert_eq!(options[0].label, "A");
            assert_eq!(options[1].label, "b");
        }
        other => panic!("unexpected control {other:?}"),
    }
}
