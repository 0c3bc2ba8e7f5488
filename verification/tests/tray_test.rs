use soundcore_control::domain::{DeviceSnapshot, ListeningMode};
use soundcore_control::tray::{battery_value, TrayState};

#[test]
fn connected_state_formats_battery_and_mode() {
    let snapshot = DeviceSnapshot {
        battery_left: Some(94),
        battery_right: Some(90),
        battery_case: Some(80),
        listening_mode: ListeningMode::Normal,
        ..DeviceSnapshot::default()
    };

    let state = TrayState::connected("Test Earbuds", &snapshot);

    assert!(state.is_connected());
    assert_eq!(state.device_label(), "Test Earbuds");
    assert_eq!(state.listening_mode(), Some(ListeningMode::Normal));
    assert_eq!(battery_value(state.batteries().0), "94%");
}
