use soundcore_control::domain::{
    ControlSetting, ControlValue, DeviceCommand, DeviceSnapshot, ListeningMode, SelectOption,
    SettingId,
};
use soundcore_control::notify::{connected_body, connected_summary};
use soundcore_control::tray::{
    battery_value, listening_mode_label, mode_for_radio, radio_index, TrayState,
};
use soundcore_control::ui::ambient::{
    apply_ambient_selection, apply_mode_choice, normal_active, slider_pick, slot_colored,
    slot_level, AmbientSelection,
};
use soundcore_control::ui::controls::{
    disable_command, select_command, selected_label, toggle_command, toggle_text,
};
use soundcore_control::ui::widgets::{format_frequency, preset_label};

fn option(value: &str, label: &str) -> SelectOption {
    SelectOption { value: value.into(), label: label.into() }
}

fn battery_snapshot() -> DeviceSnapshot {
    DeviceSnapshot {
        battery_left: Some(94),
        battery_right: None,
        battery_case: Some(100),
        listening_mode: ListeningMode::NoiseCanceling,
        ..DeviceSnapshot::default()
    }
}

#[test]
fn tray_texts_show_device_status_and_batteries() {
    let state = TrayState::connected("Liberty 4 Pro", &battery_snapshot());
    assert_eq!(state.title(), "Liberty 4 Pro · Connected");
    assert_eq!(state.tooltip_description(), "Connected · L 94% · R — · Case 100%");
    assert_eq!(state.menu_status_line(), "Liberty 4 Pro — Connected");
    assert_eq!(state.menu_battery_line(), "L 94%   R —   Case 100%");
    assert_eq!(state.ambient_menu_label(), "Ambient mode: Noise Canceling");

    let idle = TrayState::searching();
    assert!(!idle.is_connected());
    assert_eq!(idle.title(), "Soundcore Control · Looking for earbuds…");
    assert_eq!(idle.ambient_menu_label(), "Ambient mode: —");
    assert_eq!(TrayState::failed().status(), "Connection needs attention");
    assert_eq!(TrayState::connecting("X").device_label(), "X");
    assert_eq!(TrayState::default(), TrayState::disconnected());
    assert_eq!(battery_value(Some(0)), "0%");
    assert_eq!(battery_value(None), "—");
}

#[test]
fn tray_radio_entries_round_trip() {
    for mode in [ListeningMode::NoiseCanceling, ListeningMode::Transparency, ListeningMode::Normal] {
        assert_eq!(mode_for_radio(radio_index(Some(mode))), mode);
    }
    assert_eq!(radio_index(None), 0);
    assert_eq!(mode_for_radio(7), ListeningMode::NoiseCanceling);
    assert_eq!(listening_mode_label(ListeningMode::NoiseCanceling), "Noise Canceling");
}

#[test]
fn connection_notification_texts() {
    assert_eq!(connected_summary("Liberty 4 Pro"), "Liberty 4 Pro connected");
    assert_eq!(connected_body(&battery_snapshot()), "L 94% · R — · Case 100%");
}

#[test]
fn preset_labels_and_band_frequencies() {
    let options = vec![option("BassBooster", "Bass Booster"), option("Custom", "Mine")];
    assert_eq!(preset_label(&options, "BassBooster"), "Bass Booster");
    assert_eq!(preset_label(&options, "Custom"), "Mine");
    assert_eq!(preset_label(&options, "Unknown"), "Unknown");
    assert_eq!(format_frequency(100), "100");
    assert_eq!(format_frequency(999), "999");
    assert_eq!(format_frequency(1000), "1k");
    assert_eq!(format_frequency(12800), "12k");
}

#[test]
fn control_rows_show_and_send_choices() {
    let options = vec![option("PlayPause", "Play / Pause"), option("VoiceAssistant", "Voice")];
    assert_eq!(selected_label(&Some("VoiceAssistant".into()), &options), "Voice");
    assert_eq!(selected_label(&Some("Gone".into()), &options), "Disabled");
    assert_eq!(selected_label(&None, &options), "Disabled");
    assert_eq!(toggle_text(true), "On");
    assert_eq!(toggle_text(false), "Off");
    assert_eq!(
        toggle_command(SettingId::EasyChat, true),
        DeviceCommand::SetToggle(SettingId::EasyChat, false)
    );
    let control = ControlSetting {
        id: SettingId::LeftLongPress,
        label: "Left Long Press".into(),
        value: ControlValue::Select { value: None, options, optional: true },
    };
    assert_eq!(
        disable_command(&control),
        DeviceCommand::SetSelect { id: SettingId::LeftLongPress, value: None, optional: true }
    );
    assert_eq!(
        select_command(SettingId::LeftLongPress, &"PlayPause".to_owned(), true),
        DeviceCommand::SetSelect {
            id: SettingId::LeftLongPress,
            value: Some("PlayPause".into()),
            optional: true
        }
    );
}

#[test]
fn ambient_slider_slots_and_clicks() {
    let levels: Vec<Option<u8>> = (0..=10).map(slot_level).collect();
    assert_eq!(
        levels,
        vec![
            Some(1),
            Some(2),
            Some(3),
            Some(4),
            Some(5),
            None,
            Some(6),
            Some(7),
            Some(8),
            Some(9),
            Some(10)
        ]
    );
    assert!(normal_active(ListeningMode::Normal, None));
    assert!(normal_active(ListeningMode::NoiseCanceling, Some(6)));
    assert!(!normal_active(ListeningMode::Transparency, Some(5)));
    assert!(slot_colored(3, None, ListeningMode::Normal));
    assert!(!slot_colored(6, Some(9), ListeningMode::Normal));
    assert!(slot_colored(6, Some(9), ListeningMode::NoiseCanceling));
    assert!(!slot_colored(10, Some(9), ListeningMode::NoiseCanceling));

    assert_eq!(slider_pick(5, Some(3), ListeningMode::Transparency), Some(AmbientSelection::Normal));
    assert_eq!(slider_pick(5, None, ListeningMode::Normal), None);
    assert_eq!(slider_pick(-4, None, ListeningMode::Normal), Some(AmbientSelection::Level(1)));
    assert_eq!(slider_pick(40, None, ListeningMode::Normal), Some(AmbientSelection::Level(10)));
    assert_eq!(slider_pick(7, Some(7), ListeningMode::NoiseCanceling), None);
    assert_eq!(slider_pick(7, Some(7), ListeningMode::Normal), Some(AmbientSelection::Level(7)));
    assert_eq!(
        slider_pick(2, Some(7), ListeningMode::NoiseCanceling),
        Some(AmbientSelection::Level(3))
    );
}

#[test]
fn ambient_choices_update_the_snapshot() {
    let mut snapshot = DeviceSnapshot::default();
    let command = apply_ambient_selection(&mut snapshot, AmbientSelection::Level(8));
    assert_eq!(command, DeviceCommand::SetAmbientLevel(8));
    assert_eq!(snapshot.ambient_level, Some(8));
    assert_eq!(snapshot.listening_mode, ListeningMode::NoiseCanceling);

    let command = apply_ambient_selection(&mut snapshot, AmbientSelection::Normal);
    assert_eq!(command, DeviceCommand::SetListeningMode(ListeningMode::Normal));
    assert_eq!(snapshot.ambient_level, None);
    assert_eq!(snapshot.listening_mode, ListeningMode::Normal);

    let command = apply_mode_choice(&mut snapshot, ListeningMode::Transparency);
    assert_eq!(command, DeviceCommand::SetListeningMode(ListeningMode::Transparency));
    assert_eq!(snapshot.listening_mode, ListeningMode::Transparency);
}
