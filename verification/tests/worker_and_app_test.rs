use soundcore_control::app::{
    status_is_good, status_text, ActiveTab, AppModel, CloseResponse, ConnectionView, IconRequest,
    ServiceStep, TrayResponse, TrayService,
};
use soundcore_control::device::{
    ambient_repair_level, no_target_message, panic_text, plan_command, CommandPlan, DeviceEvent,
};
use soundcore_control::devices::device_profiles;
use soundcore_control::domain::{
    setting_changes, DeviceCommand, DeviceSnapshot, ListeningMode, Range, Select, Setting,
    SettingId,
};
use soundcore_control::mac::MacAddress;
use soundcore_control::tray::{TrayAction, TrayState};
use soundcore_control::watch::{
    command_line_words, is_app_instance, is_watch_target, is_watcher_instance, should_launch,
};

fn mode(value: &str) -> Option<Setting> {
    Some(Setting::Select {
        setting: Select { options: vec![], localized_options: vec![] },
        value: value.into(),
    })
}

fn strength(value: i32) -> Option<Setting> {
    Some(Setting::I32Range { setting: Range { start: 1, end: 5, step: 1 }, value })
}

fn snapshot(left: u8) -> DeviceSnapshot {
    DeviceSnapshot { battery_left: Some(left), ..DeviceSnapshot::default() }
}

#[test]
fn ambient_repair_fills_in_a_missing_strength() {
    assert_eq!(ambient_repair_level(false, &mode("NoiseCanceling"), &None, &None), None);
    assert_eq!(ambient_repair_level(true, &mode("NoiseCanceling"), &None, &None), Some(10));
    assert_eq!(ambient_repair_level(true, &mode("NoiseCanceling"), &None, &strength(2)), Some(7));
    assert_eq!(ambient_repair_level(true, &mode("NoiseCanceling"), &strength(2), &None), None);
    assert_eq!(ambient_repair_level(true, &mode("Transparency"), &None, &None), Some(1));
    assert_eq!(ambient_repair_level(true, &mode("Transparency"), &strength(4), &None), Some(2));
    assert_eq!(ambient_repair_level(true, &mode("Transparency"), &None, &strength(3)), None);
    assert_eq!(ambient_repair_level(true, &mode("Normal"), &None, &None), None);
    assert_eq!(ambient_repair_level(true, &None, &None, &None), None);
    // Without manual ranges nothing is read, whatever the strengths hold.
    assert_eq!(
        ambient_repair_level(false, &mode("NoiseCanceling"), &None, &strength(i32::MAX)),
        None
    );
}

#[test]
fn worker_messages_and_plans() {
    let profiles = device_profiles();
    assert_eq!(
        no_target_message(None, &profiles),
        "No supported earbuds were found. Connect one of the following in Bluetooth settings, \
         then reopen the app: Liberty 4 Pro, R60i NC, P20i, Life Q30, Space One Pro"
    );
    let address = MacAddress::parse("aa:bb:cc:dd:ee:ff").unwrap();
    assert_eq!(
        no_target_message(Some(address), &profiles),
        "configured device AA:BB:CC:DD:EE:FF is not connected"
    );
    assert_eq!(panic_text(Some("boom".into())), "boom");
    assert_eq!(panic_text(None), "unknown panic");
    assert_eq!(plan_command(DeviceCommand::Disconnect), CommandPlan::Disconnect);
    assert_eq!(
        plan_command(DeviceCommand::SetAmbientLevel(4)),
        CommandPlan::Write(setting_changes(DeviceCommand::SetAmbientLevel(4)))
    );
}

#[test]
fn window_follows_worker_events() {
    let mut model = AppModel::new();
    assert_eq!(model.connection, ConnectionView::Searching);
    assert!(!model.is_connected());

    let effects = model.handle_device_event(DeviceEvent::Connecting {
        name: "Liberty 4 Pro".into(),
        icon: Some("liberty-4-pro.png".into()),
        supports_manual_ambient_ranges: true,
    });
    assert_eq!(model.connection, ConnectionView::Connecting);
    assert_eq!(effects.tray, Some(TrayState::connecting("Liberty 4 Pro")));
    assert_eq!(
        effects.icon,
        Some(IconRequest { key: "Liberty 4 Pro".into(), asset: "liberty-4-pro.png".into() })
    );
    assert_eq!(model.current_icon_key.as_deref(), Some("Liberty 4 Pro"));

    let effects = model.handle_device_event(DeviceEvent::Connected {
        name: "Liberty 4 Pro".into(),
        snapshot: snapshot(80),
        icon: None,
        supports_manual_ambient_ranges: false,
    });
    assert!(model.is_connected());
    assert!(effects.notify);
    assert_eq!(model.current_icon_key, None);
    assert!(!model.supports_manual_ambient_ranges);
    assert_eq!(effects.tray, Some(TrayState::connected("Liberty 4 Pro", &snapshot(80))));

    let effects = model.handle_device_event(DeviceEvent::Error("write failed".into()));
    assert!(model.is_connected());
    assert_eq!(effects.tray, None);
    assert_eq!(model.message.as_deref(), Some("write failed"));

    let effects = model.handle_device_event(DeviceEvent::Snapshot(snapshot(70)));
    assert_eq!(model.snapshot.battery_left, Some(70));
    assert_eq!(model.message, None);
    assert_eq!(effects.tray, Some(TrayState::connected("Liberty 4 Pro", &snapshot(70))));

    let effects = model.handle_device_event(DeviceEvent::Disconnected);
    assert_eq!(model.connection, ConnectionView::Disconnected);
    assert_eq!(model.message.as_deref(), Some("The earbuds disconnected from Bluetooth."));
    assert_eq!(effects.tray, Some(TrayState::disconnected()));

    let effects = model.handle_device_event(DeviceEvent::Error("no adapter".into()));
    assert_eq!(model.connection, ConnectionView::Failed);
    assert_eq!(effects.tray, Some(TrayState::failed()));

    let tray = model.reconnect();
    assert_eq!(tray, TrayState::searching());
    assert_eq!(model.connection, ConnectionView::Searching);
    assert_eq!(model.message, None);
}

#[test]
fn window_follows_tray_actions_and_close_requests() {
    let mut model = AppModel::new();
    assert_eq!(model.handle_tray_action(TrayAction::ShowWindow), TrayResponse::ShowWindow);
    assert_eq!(
        model.handle_tray_action(TrayAction::Disconnect),
        TrayResponse::Send(DeviceCommand::Disconnect)
    );
    assert_eq!(model.message.as_deref(), Some("Disconnecting earbuds…"));
    assert_eq!(
        model.handle_tray_action(TrayAction::SetListeningMode(ListeningMode::Transparency)),
        TrayResponse::Send(DeviceCommand::SetListeningMode(ListeningMode::Transparency))
    );
    assert_eq!(model.snapshot.listening_mode, ListeningMode::Transparency);

    // Closing the window or pressing Escape only hides it: the tray and the
    // connection keep running, and later requests hide it again.
    assert_eq!(model.request_close(false, false), CloseResponse::Nothing);
    assert_eq!(model.request_close(true, false), CloseResponse::HideWindow);
    assert_eq!(model.request_close(false, true), CloseResponse::HideWindow);
    assert!(!model.allow_exit);
    assert_eq!(model.request_close(true, false), CloseResponse::HideWindow);
    assert_eq!(model.connection, ConnectionView::Searching);

    // Quit stops the background watcher and lets the close go through.
    assert_eq!(
        model.handle_tray_action(TrayAction::Quit),
        TrayResponse::Close { stop_watcher: true }
    );
    assert!(model.allow_exit);
    assert_eq!(model.request_close(true, false), CloseResponse::Proceed);
    assert_eq!(model.request_close(false, true), CloseResponse::Nothing);

    model.note_send_failure("the Bluetooth worker is not running".into());
    assert_eq!(model.message.as_deref(), Some("the Bluetooth worker is not running"));
}

#[test]
fn tabs_equalizer_and_status() {
    let mut model = AppModel::new();
    model.supports_manual_ambient_ranges = false;
    assert_eq!(model.visible_tabs(), vec![ActiveTab::Equalizer]);
    let tabs = model.visible_tabs();
    model.settle_active_tab(&tabs);
    assert_eq!(model.active_tab, ActiveTab::Equalizer);
    model.supports_manual_ambient_ranges = true;
    assert_eq!(model.visible_tabs(), vec![ActiveTab::Ambient, ActiveTab::Equalizer]);

    assert_eq!(model.current_preset(), "Custom");
    assert_eq!(model.choose_preset("BassBooster".into()), DeviceCommand::SetPreset("BassBooster".into()));
    assert_eq!(model.current_preset(), "BassBooster");
    assert_eq!(model.equalizer_changed(&vec![1, 2]), DeviceCommand::SetEqualizer(vec![1, 2]));
    assert_eq!(model.snapshot.selected_preset, None);

    assert_eq!(status_text(ConnectionView::Connecting), "Opening controls…");
    assert_eq!(status_text(ConnectionView::Failed), "Needs attention");
    assert!(status_is_good(ConnectionView::Connected));
    assert!(!status_is_good(ConnectionView::Searching));
}

#[test]
fn tray_service_tracks_the_device() {
    let mut service = TrayService::new();
    let update = service.handle_event(DeviceEvent::Connecting {
        name: "P20i".into(),
        icon: None,
        supports_manual_ambient_ranges: false,
    });
    assert_eq!(update.tray, TrayState::connecting("P20i"));
    let update = service.handle_event(DeviceEvent::Snapshot(snapshot(55)));
    assert_eq!(update.tray, TrayState::connected("P20i", &snapshot(55)));
    assert!(!update.notify);
    let update = service.handle_event(DeviceEvent::Error("x".into()));
    assert_eq!(update.tray, TrayState::failed());
    assert_eq!(service.handle_action(TrayAction::ShowWindow), ServiceStep::Stop { open_window: true, stop_watcher: false });
    assert_eq!(service.handle_action(TrayAction::Quit), ServiceStep::Stop { open_window: false, stop_watcher: true });
    assert_eq!(
        service.handle_action(TrayAction::Disconnect),
        ServiceStep::Send(DeviceCommand::Disconnect)
    );
}

#[test]
fn watcher_decisions() {
    let a = MacAddress::parse("11:22:33:44:55:66").unwrap();
    let b = MacAddress::parse("11:22:33:44:55:67").unwrap();
    assert!(is_watch_target(&a, Some(a), None));
    assert!(!is_watch_target(&b, Some(a), Some("soundcore Liberty 4 Pro")));
    assert!(is_watch_target(&b, None, Some("SOUNDCORE LIFE Q30")));
    assert!(!is_watch_target(&b, None, Some("Other")));
    assert!(!is_watch_target(&b, None, None));
    assert!(should_launch(true, false));
    assert!(!should_launch(true, true));
    assert!(!should_launch(false, false));
    assert!(is_app_instance(None));
    assert!(is_app_instance(Some("--tray-only")));
    assert!(!is_app_instance(Some("--watch")));
    assert!(is_watcher_instance(Some("--watch")));
    assert!(!is_watcher_instance(None));
    let _ = SettingId::Ldac;
}

#[test]
fn splits_process_command_lines() {
    let words = command_line_words(b"/usr/bin/soundcore-control\0--watch\0");
    assert_eq!(words, vec![b"/usr/bin/soundcore-control".to_vec(), b"--watch".to_vec()]);
    assert_eq!(
        command_line_words(b"\0\0a\0\0bc\0"),
        vec![b"a".to_vec(), b"bc".to_vec()]
    );
    assert_eq!(command_line_words(b"app"), vec![b"app".to_vec()]);
    assert!(command_line_words(b"").is_empty());
    assert!(command_line_words(b"\0\0").is_empty());
}
