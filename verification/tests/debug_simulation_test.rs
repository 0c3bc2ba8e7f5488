use soundcore_control::devices::DeviceModel;
use soundcore_control::domain::{ControlValue, ListeningMode, SettingId};
use soundcore_control::ui::debug::{build_snapshot, is_single_battery, model_support, DebugState};

fn label(id: SettingId) -> String {
    format!("{id:?}")
}

#[test]
fn simulated_liberty_shows_picked_values() {
    let state = DebugState::default();
    let snapshot = build_snapshot(&state, DeviceModel::SoundcoreA3954, false, true, label);
    assert_eq!(snapshot.battery_left, Some(90));
    assert_eq!(snapshot.battery_right, Some(85));
    assert_eq!(snapshot.battery_case, Some(70));
    assert_eq!(snapshot.listening_mode, ListeningMode::Normal);
    assert_eq!(snapshot.ambient_level, Some(1));
    assert_eq!(snapshot.mode_options.len(), 3);
    assert_eq!(snapshot.selected_preset.as_deref(), Some("SoundcoreSignature"));
    assert_eq!(snapshot.daily_controls.len(), 7);
    assert_eq!(snapshot.earbud_controls.len(), 12);
    assert_eq!(snapshot.daily_controls[3].id, SettingId::EasyChatWaitTime);
    match &snapshot.daily_controls[4].value {
        ControlValue::Select { value, optional, .. } => {
            assert_eq!(value.as_deref(), Some("30min"));
            assert!(*optional);
        }
        other => panic!("unexpected control {other:?}"),
    }
}

#[test]
fn simulated_headphones_have_one_battery_and_no_gesture_list() {
    let state = DebugState {
        listening_mode: ListeningMode::NoiseCanceling,
        ambient_level: 9,
        ..DebugState::default()
    };
    assert!(is_single_battery(DeviceModel::SoundcoreA3062));
    let snapshot = build_snapshot(&state, DeviceModel::SoundcoreA3062, true, false, label);
    assert_eq!(snapshot.battery_left, None);
    assert_eq!(snapshot.listening_mode, ListeningMode::NoiseCanceling);
    assert_eq!(snapshot.ambient_level, None);
    assert_eq!(snapshot.daily_controls.len(), 3);
    assert_eq!(snapshot.earbud_controls.len(), 0);

    let snapshot = build_snapshot(&state, DeviceModel::SoundcoreA3954, false, true, label);
    assert_eq!(snapshot.ambient_level, Some(10));

    let p20i = build_snapshot(&state, DeviceModel::SoundcoreA3949, false, false, label);
    assert_eq!(p20i.listening_mode, ListeningMode::Normal);
    assert!(p20i.mode_options.is_empty());
    assert_eq!(p20i.earbud_controls.len(), 6);
    assert!(!model_support(DeviceModel::SoundcoreA3949).ambient_mode);
}
