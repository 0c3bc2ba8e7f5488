//! The state machine of the application window and of the tray-only
//! service: how worker events and tray actions change what is shown, and
//! what each of them asks the rest of the program to do.

use vstd::prelude::*;

use crate::device::DeviceEvent;
use crate::domain::{opt_text, DeviceCommand, DeviceSnapshot, SnapshotView};
use crate::tray::{connected_state, idle_state, TrayAction, TrayState};

verus! {

/// The tab shown below the header.
#[derive(Clone, Copy, Debug, PartialEq, Eq, Structural)]
pub enum ActiveTab {
    Ambient,
    Equalizer,
    Controls,
}

/// Where the connection to the earbuds stands, as the window shows it.
#[derive(Clone, Copy, Debug, PartialEq, Eq, Structural)]
pub enum ConnectionView {
    Searching,
    Connecting,
    Connected,
    Disconnected,
    Failed,
}

/// A device illustration to show: the file `asset`, cached under `key`.
#[derive(Clone, Debug, PartialEq, Eq)]
pub struct IconRequest {
    pub key: String,
    pub asset: String,
}

/// What the rest of the program has to do after a worker event.
#[derive(Clone, Debug, PartialEq, Eq)]
pub struct EventEffects {
    /// The new tray state, if the tray changes.
    pub tray: Option<TrayState>,
    /// The illustration to show, if the event names one.
    pub icon: Option<IconRequest>,
    /// Whether to show the "connected" desktop notification for the device
    /// name and snapshot now held by the model.
    pub notify: bool,
}

/// What the rest of the program has to do after a tray action.
#[derive(Clone, Debug, PartialEq, Eq)]
pub enum TrayResponse {
    /// Raise and focus the window.
    ShowWindow,
    /// Send this command to the worker.
    Send(DeviceCommand),
    /// Close the window and exit the program; first stop the background
    /// watcher if `stop_watcher`, so that nothing starts the program again.
    Close { stop_watcher: bool },
}

/// What to do when the window is asked to close.
#[derive(Clone, Copy, Debug, PartialEq, Eq, Structural)]
pub enum CloseResponse {
    /// Nothing was asked: the window stays as it is.
    Nothing,
    /// Cancel the close and hide the window; the tray and the connection
    /// keep running in this process, and the tray can show the window again.
    HideWindow,
    /// Exiting is allowed: let the close go through.
    Proceed,
}

/// The message shown after the earbuds disconnect.
pub open spec fn disconnected_message() -> Seq<char> {
    "The earbuds disconnected from Bluetooth."@
}

/// The message shown while a disconnect is under way.
pub open spec fn disconnecting_message() -> Seq<char> {
    "Disconnecting earbuds…"@
}

/// The state of the application window.
pub struct AppModel {
    pub connection: ConnectionView,
    pub device_name: String,
    pub snapshot: DeviceSnapshot,
    pub message: Option<String>,
    pub active_tab: ActiveTab,
    pub supports_manual_ambient_ranges: bool,
    pub current_icon_key: Option<String>,
    pub allow_exit: bool,
}

/// `after` differs from `before` in the snapshot, the message and the exit
/// permission at most.
pub open spec fn keeps_connection_fields(before: AppModel, after: AppModel) -> bool {
    &&& after.connection == before.connection
    &&& after.device_name == before.device_name
    &&& after.active_tab == before.active_tab
    &&& after.supports_manual_ambient_ranges == before.supports_manual_ambient_ranges
    &&& after.current_icon_key == before.current_icon_key
}

fn icon_for(name: &String, icon: Option<String>) -> (result: (Option<String>, Option<IconRequest>))
    ensures
        match icon {
            Some(asset) => (result.0 matches Some(key) && key@ == name@) && (result.1 matches Some(
                request,
            ) && request.key@ == name@ && request.asset@ == asset@),
            None => result.0 is None && result.1 is None,
        },
{
    match icon {
        Some(asset) => (Some(name.clone()), Some(IconRequest { key: name.clone(), asset })),
        None => (None, None),
    }
}

fn copy_gains(gains: &Vec<i16>) -> (copy: Vec<i16>)
    ensures
        copy@ == gains@,
{
    let mut copy: Vec<i16> = Vec::new();
    let n = gains.len();
    let mut i: usize = 0;
    while i < n
        invariant
            n == gains@.len(),
            i <= n,
            copy@ == gains@.take(i as int),
        decreases n - i,
    {
        copy.push(gains[i]);
        i = i + 1;
        assert(copy@ =~= gains@.take(i as int));
    }
    assert(gains@.take(n as int) =~= gains@);
    copy
}

impl AppModel {
    /// The window as it opens: searching, with nothing known of the device.
    pub fn new() -> (model: Self)
        ensures
            model.connection == ConnectionView::Searching,
            model.device_name@ == "Searching…"@,
            model.snapshot@ == crate::domain::empty_snapshot(),
            model.message is None,
            model.active_tab == ActiveTab::Ambient,
            model.supports_manual_ambient_ranges,
            model.current_icon_key is None,
            !model.allow_exit,
    {
        AppModel {
            connection: ConnectionView::Searching,
            device_name: String::from_str("Searching…"),
            snapshot: DeviceSnapshot::default(),
            message: None,
            active_tab: ActiveTab::Ambient,
            supports_manual_ambient_ranges: true,
            current_icon_key: None,
            allow_exit: false,
        }
    }

    /// Whether the earbuds are connected.
    pub fn is_connected(&self) -> (connected: bool)
        ensures
            connected == (self.connection == ConnectionView::Connected),
    {
        self.connection == ConnectionView::Connected
    }

    /// Takes in one event of the Bluetooth worker.
    pub fn handle_device_event(&mut self, event: DeviceEvent) -> (effects: EventEffects)
        ensures
            final(self).active_tab == old(self).active_tab,
            final(self).allow_exit == old(self).allow_exit,
            effects.tray matches Some(t) ==> (t@.connected <==> final(self).connection
                == ConnectionView::Connected),
            match event {
                DeviceEvent::Searching => {
                    &&& final(self).connection == ConnectionView::Searching
                    &&& effects.tray matches Some(t) && t@ == idle_state(None, "Looking for earbuds…"@)
                    &&& effects.icon is None && !effects.notify
                    &&& final(self).device_name == old(self).device_name
                    &&& final(self).snapshot == old(self).snapshot
                    &&& final(self).message == old(self).message
                    &&& final(self).current_icon_key == old(self).current_icon_key
                    &&& final(self).supports_manual_ambient_ranges == old(self).supports_manual_ambient_ranges
                },
                DeviceEvent::Connecting { name, icon, supports_manual_ambient_ranges } => {
                    &&& final(self).connection == ConnectionView::Connecting
                    &&& final(self).supports_manual_ambient_ranges == supports_manual_ambient_ranges
                    &&& final(self).device_name@ == name@
                    &&& effects.tray matches Some(t) && t@ == idle_state(Some(name@), "Connecting…"@)
                    &&& icon_effects(name@, icon, final(self).current_icon_key, effects.icon)
                    &&& !effects.notify
                    &&& final(self).snapshot == old(self).snapshot
                    &&& final(self).message == old(self).message
                },
                DeviceEvent::Connected { name, snapshot, icon, supports_manual_ambient_ranges } => {
                    &&& final(self).connection == ConnectionView::Connected
                    &&& final(self).supports_manual_ambient_ranges == supports_manual_ambient_ranges
                    &&& final(self).device_name@ == name@
                    &&& final(self).snapshot == snapshot
                    &&& final(self).message is None
                    &&& effects.tray matches Some(t) && t@ == connected_state(name@, snapshot)
                    &&& icon_effects(name@, icon, final(self).current_icon_key, effects.icon)
                    &&& effects.notify
                },
                DeviceEvent::Snapshot(snapshot) => {
                    &&& final(self).connection == ConnectionView::Connected
                    &&& final(self).snapshot == snapshot
                    &&& final(self).message is None
                    &&& final(self).device_name == old(self).device_name
                    &&& effects.tray matches Some(t) && t@ == connected_state(
                        old(self).device_name@,
                        snapshot,
                    )
                    &&& effects.icon is None && !effects.notify
                    &&& final(self).current_icon_key == old(self).current_icon_key
                    &&& final(self).supports_manual_ambient_ranges == old(self).supports_manual_ambient_ranges
                },
                DeviceEvent::Error(error) => {
                    &&& opt_text(final(self).message) == Some(error@)
                    &&& if old(self).connection == ConnectionView::Connected {
                        &&& final(self).connection == ConnectionView::Connected
                        &&& effects.tray is None
                    } else {
                        &&& final(self).connection == ConnectionView::Failed
                        &&& effects.tray matches Some(t) && t@ == idle_state(
                            None,
                            "Connection needs attention"@,
                        )
                    }
                    &&& effects.icon is None && !effects.notify
                    &&& final(self).device_name == old(self).device_name
                    &&& final(self).snapshot == old(self).snapshot
                    &&& final(self).current_icon_key == old(self).current_icon_key
                    &&& final(self).supports_manual_ambient_ranges == old(self).supports_manual_ambient_ranges
                },
                DeviceEvent::Disconnected => {
                    &&& final(self).connection == ConnectionView::Disconnected
                    &&& opt_text(final(self).message) == Some(disconnected_message())
                    &&& effects.tray matches Some(t) && t@ == idle_state(None, "Disconnected"@)
                    &&& effects.icon is None && !effects.notify
                    &&& final(self).device_name == old(self).device_name
                    &&& final(self).snapshot == old(self).snapshot
                    &&& final(self).current_icon_key == old(self).current_icon_key
                    &&& final(self).supports_manual_ambient_ranges == old(self).supports_manual_ambient_ranges
                },
            },
    {
        match event {
            DeviceEvent::Searching => {
                self.connection = ConnectionView::Searching;
                EventEffects { tray: Some(TrayState::searching()), icon: None, notify: false }
            },
            DeviceEvent::Connecting { name, icon, supports_manual_ambient_ranges } => {
                self.connection = ConnectionView::Connecting;
                self.supports_manual_ambient_ranges = supports_manual_ambient_ranges;
                let (key, request) = icon_for(&name, icon);
                self.current_icon_key = key;
                let tray = TrayState::connecting(name.as_str());
                self.device_name = name;
                EventEffects { tray: Some(tray), icon: request, notify: false }
            },
            DeviceEvent::Connected { name, snapshot, icon, supports_manual_ambient_ranges } => {
                self.connection = ConnectionView::Connected;
                self.supports_manual_ambient_ranges = supports_manual_ambient_ranges;
                let (key, request) = icon_for(&name, icon);
                self.current_icon_key = key;
                let tray = TrayState::connected(name.as_str(), &snapshot);
                self.device_name = name;
                self.snapshot = snapshot;
                self.message = None;
                EventEffects { tray: Some(tray), icon: request, notify: true }
            },
            DeviceEvent::Snapshot(snapshot) => {
                let tray = TrayState::connected(self.device_name.as_str(), &snapshot);
                self.snapshot = snapshot;
                self.connection = ConnectionView::Connected;
                self.message = None;
                EventEffects { tray: Some(tray), icon: None, notify: false }
            },
            DeviceEvent::Error(error) => {
                let mut tray = None;
                if self.connection != ConnectionView::Connected {
                    self.connection = ConnectionView::Failed;
                    tray = Some(TrayState::failed());
                }
                self.message = Some(error);
                EventEffects { tray, icon: None, notify: false }
            },
            DeviceEvent::Disconnected => {
                self.connection = ConnectionView::Disconnected;
                self.message = Some(String::from_str("The earbuds disconnected from Bluetooth."));
                EventEffects { tray: Some(TrayState::disconnected()), icon: None, notify: false }
            },
        }
    }

    /// Takes in one action picked in the tray menu.
    pub fn handle_tray_action(&mut self, action: TrayAction) -> (response: TrayResponse)
        ensures
            keeps_connection_fields(*old(self), *final(self)),
            match action {
                TrayAction::ShowWindow => {
                    &&& response == TrayResponse::ShowWindow
                    &&& final(self).snapshot == old(self).snapshot
                    &&& final(self).message == old(self).message
                    &&& final(self).allow_exit == old(self).allow_exit
                },
                TrayAction::Disconnect => {
                    &&& response == TrayResponse::Send(DeviceCommand::Disconnect)
                    &&& opt_text(final(self).message) == Some(disconnecting_message())
                    &&& final(self).snapshot == old(self).snapshot
                    &&& final(self).allow_exit == old(self).allow_exit
                },
                TrayAction::SetListeningMode(mode) => {
                    &&& response == TrayResponse::Send(DeviceCommand::SetListeningMode(mode))
                    &&& final(self).snapshot@ == (SnapshotView {
                        listening_mode: mode,
                        ..old(self).snapshot@
                    })
                    &&& final(self).message == old(self).message
                    &&& final(self).allow_exit == old(self).allow_exit
                },
                TrayAction::Quit => {
                    &&& response == (TrayResponse::Close { stop_watcher: true })
                    &&& final(self).allow_exit
                    &&& final(self).snapshot == old(self).snapshot
                    &&& final(self).message == old(self).message
                },
            },
    {
        match action {
            TrayAction::ShowWindow => TrayResponse::ShowWindow,
            TrayAction::Disconnect => {
                self.message = Some(String::from_str("Disconnecting earbuds…"));
                TrayResponse::Send(DeviceCommand::Disconnect)
            },
            TrayAction::SetListeningMode(mode) => {
                self.snapshot.listening_mode = mode;
                TrayResponse::Send(DeviceCommand::SetListeningMode(mode))
            },
            TrayAction::Quit => {
                self.allow_exit = true;
                TrayResponse::Close { stop_watcher: true }
            },
        }
    }

    /// Records that a command could not be handed to the worker.
    pub fn note_send_failure(&mut self, message: String)
        ensures
            opt_text(final(self).message) == Some(message@),
            keeps_connection_fields(*old(self), *final(self)),
            final(self).snapshot == old(self).snapshot,
            final(self).allow_exit == old(self).allow_exit,
    {
        self.message = Some(message);
    }

    /// Starts over after the user asks to try again; returns the new tray
    /// state.
    pub fn reconnect(&mut self) -> (tray: TrayState)
        ensures
            final(self).connection == ConnectionView::Searching,
            final(self).message is None,
            final(self).snapshot == old(self).snapshot,
            final(self).device_name == old(self).device_name,
            final(self).active_tab == old(self).active_tab,
            final(self).supports_manual_ambient_ranges == old(self).supports_manual_ambient_ranges,
            final(self).current_icon_key == old(self).current_icon_key,
            final(self).allow_exit == old(self).allow_exit,
            tray@ == idle_state(None, "Looking for earbuds…"@),
    {
        self.connection = ConnectionView::Searching;
        self.message = None;
        TrayState::searching()
    }

    /// Whether the ambient tab has something to show: the level slider on
    /// models with manual strengths, else the mode picker when the device
    /// offers modes.
    pub fn has_ambient_options(&self) -> (has: bool)
        ensures
            has == (self.supports_manual_ambient_ranges || self.snapshot.mode_options@.len() > 0),
    {
        self.supports_manual_ambient_ranges || self.snapshot.mode_options.len() > 0
    }

    /// Whether the controls tab has something to show.
    pub fn has_controls(&self) -> (has: bool)
        ensures
            has == (self.snapshot.daily_controls@.len() > 0 || self.snapshot.earbud_controls@.len()
                > 0),
    {
        self.snapshot.daily_controls.len() > 0 || self.snapshot.earbud_controls.len() > 0
    }

    /// The tabs offered, in order: ambient and controls only when they have
    /// something to show, the equalizer always.
    pub fn visible_tabs(&self) -> (tabs: Vec<ActiveTab>)
        ensures
            tabs@ == visible_tabs_spec(
                self.supports_manual_ambient_ranges || self.snapshot.mode_options@.len() > 0,
                self.snapshot.daily_controls@.len() > 0 || self.snapshot.earbud_controls@.len()
                    > 0,
            ),
    {
        let ambient = self.has_ambient_options();
        let controls = self.has_controls();
        let mut tabs: Vec<ActiveTab> = Vec::new();
        if ambient {
            tabs.push(ActiveTab::Ambient);
        }
        tabs.push(ActiveTab::Equalizer);
        if controls {
            tabs.push(ActiveTab::Controls);
        }
        assert(tabs@ =~= visible_tabs_spec(ambient, controls));
        tabs
    }

    /// Moves to the first offered tab when the active one is no longer
    /// offered.
    pub fn settle_active_tab(&mut self, tabs: &Vec<ActiveTab>)
        ensures
            if tabs@.contains(old(self).active_tab) || tabs@.len() == 0 {
                final(self).active_tab == old(self).active_tab
            } else {
                final(self).active_tab == tabs@[0]
            },
            final(self).connection == old(self).connection,
            final(self).snapshot == old(self).snapshot,
            final(self).device_name == old(self).device_name,
            final(self).message == old(self).message,
            final(self).supports_manual_ambient_ranges == old(self).supports_manual_ambient_ranges,
            final(self).current_icon_key == old(self).current_icon_key,
            final(self).allow_exit == old(self).allow_exit,
    {
        let n = tabs.len();
        let mut i: usize = 0;
        while i < n
            invariant
                n == tabs@.len(),
                i <= n,
                *self == *old(self),
                forall|j: int| 0 <= j < i ==> tabs@[j] != self.active_tab,
            decreases n - i,
        {
            if tabs[i] == self.active_tab {
                assert(tabs@.contains(old(self).active_tab)) by {
                    assert(tabs@[i as int] == old(self).active_tab);
                }
                return ;
            }
            i = i + 1;
        }
        if n > 0 {
            self.active_tab = tabs[0];
        }
    }

    /// Takes in a request to close the window (the window's close button or
    /// Escape): until exiting is allowed, the window is only hidden and the
    /// tray and the connection keep running; once exiting is allowed (after
    /// Quit), a close request goes through.
    pub fn request_close(&self, close_requested: bool, escape_pressed: bool) -> (response:
        CloseResponse)
        ensures
            response == (if !self.allow_exit {
                if close_requested || escape_pressed {
                    CloseResponse::HideWindow
                } else {
                    CloseResponse::Nothing
                }
            } else if close_requested {
                CloseResponse::Proceed
            } else {
                CloseResponse::Nothing
            }),
    {
        if !self.allow_exit {
            if close_requested || escape_pressed {
                CloseResponse::HideWindow
            } else {
                CloseResponse::Nothing
            }
        } else if close_requested {
            CloseResponse::Proceed
        } else {
            CloseResponse::Nothing
        }
    }

    /// The preset the equalizer shows: the selected one, or `Custom`.
    pub fn current_preset(&self) -> (value: String)
        ensures
            value@ == match self.snapshot.selected_preset {
                Some(preset) => preset@,
                None => "Custom"@,
            },
    {
        match &self.snapshot.selected_preset {
            Some(preset) => preset.clone(),
            None => String::from_str("Custom"),
        }
    }

    /// The user picked the preset `value`: it is shown at once and sent.
    pub fn choose_preset(&mut self, value: String) -> (command: DeviceCommand)
        ensures
            final(self).snapshot@ == (SnapshotView {
                selected_preset: Some(value@),
                ..old(self).snapshot@
            }),
            command == DeviceCommand::SetPreset(value),
            keeps_connection_fields(*old(self), *final(self)),
            final(self).message == old(self).message,
            final(self).allow_exit == old(self).allow_exit,
    {
        self.snapshot.selected_preset = Some(value.clone());
        DeviceCommand::SetPreset(value)
    }

    /// The user moved an equalizer slider: the gains no longer match a
    /// preset, and the new gains are sent.
    pub fn equalizer_changed(&mut self, gains: &Vec<i16>) -> (command: DeviceCommand)
        ensures
            final(self).snapshot@ == (SnapshotView { selected_preset: None, ..old(self).snapshot@ }),
            command matches DeviceCommand::SetEqualizer(sent) && sent@ == gains@,
            keeps_connection_fields(*old(self), *final(self)),
            final(self).message == old(self).message,
            final(self).allow_exit == old(self).allow_exit,
    {
        self.snapshot.selected_preset = None;
        DeviceCommand::SetEqualizer(copy_gains(gains))
    }
}

/// The icon key and icon request that go with a device called `name` whose
/// profile names the illustration `icon`.
pub open spec fn icon_effects(
    name: Seq<char>,
    icon: Option<String>,
    key: Option<String>,
    request: Option<IconRequest>,
) -> bool {
    match icon {
        Some(asset) => (key matches Some(k) && k@ == name) && (request matches Some(r) && r.key@
            == name && r.asset@ == asset@),
        None => key is None && request is None,
    }
}

pub open spec fn visible_tabs_spec(ambient: bool, controls: bool) -> Seq<ActiveTab> {
    (if ambient {
        seq![ActiveTab::Ambient]
    } else {
        Seq::empty()
    }) + seq![ActiveTab::Equalizer] + (if controls {
        seq![ActiveTab::Controls]
    } else {
        Seq::empty()
    })
}

/// The status line of the window header.
pub open spec fn status_text_spec(connection: ConnectionView) -> Seq<char> {
    match connection {
        ConnectionView::Searching => "Looking for earbuds…"@,
        ConnectionView::Connecting => "Opening controls…"@,
        ConnectionView::Connected => "Connected"@,
        ConnectionView::Disconnected => "Disconnected"@,
        ConnectionView::Failed => "Needs attention"@,
    }
}

/// The status line of the window header.
pub fn status_text(connection: ConnectionView) -> (text: &'static str)
    ensures
        text@ == status_text_spec(connection),
{
    match connection {
        ConnectionView::Searching => "Looking for earbuds…",
        ConnectionView::Connecting => "Opening controls…",
        ConnectionView::Connected => "Connected",
        ConnectionView::Disconnected => "Disconnected",
        ConnectionView::Failed => "Needs attention",
    }
}

/// Whether the header shows the status as good news (only when connected).
pub fn status_is_good(connection: ConnectionView) -> (good: bool)
    ensures
        good == (connection == ConnectionView::Connected),
{
    connection == ConnectionView::Connected
}

/// The tray-only service, which the background watcher starts: keeps the
/// tray up to date with no window open.
pub struct TrayService {
    pub device_name: String,
}

/// What the tray-only service does after a tray action.
#[derive(Clone, Debug, PartialEq, Eq)]
pub enum ServiceStep {
    /// Send this command to the worker and keep going.
    Send(DeviceCommand),
    /// Stop the service, reopening the window if `open_window`, and first
    /// stopping the background watcher if `stop_watcher`.
    Stop { open_window: bool, stop_watcher: bool },
}

/// What the tray-only service does after a worker event.
#[derive(Clone, Debug, PartialEq, Eq)]
pub struct ServiceUpdate {
    pub tray: TrayState,
    /// Whether to show the "connected" desktop notification.
    pub notify: bool,
}

impl TrayService {
    pub fn new() -> (service: Self)
        ensures
            service.device_name@ == Seq::<char>::empty(),
    {
        TrayService { device_name: String::new() }
    }

    /// Takes in one event of the Bluetooth worker.
    pub fn handle_event(&mut self, event: DeviceEvent) -> (update: ServiceUpdate)
        ensures
            match event {
                DeviceEvent::Searching => update.tray@ == idle_state(None, "Looking for earbuds…"@)
                    && !update.notify && final(self).device_name == old(self).device_name,
                DeviceEvent::Connecting { name, .. } => final(self).device_name@ == name@
                    && update.tray@ == idle_state(Some(name@), "Connecting…"@) && !update.notify,
                DeviceEvent::Connected { name, snapshot, .. } => final(self).device_name@ == name@
                    && update.tray@ == connected_state(name@, snapshot) && update.notify,
                DeviceEvent::Snapshot(snapshot) => update.tray@ == connected_state(
                    old(self).device_name@,
                    snapshot,
                ) && !update.notify && final(self).device_name == old(self).device_name,
                DeviceEvent::Error(_) => update.tray@ == idle_state(
                    None,
                    "Connection needs attention"@,
                ) && !update.notify && final(self).device_name == old(self).device_name,
                DeviceEvent::Disconnected => update.tray@ == idle_state(None, "Disconnected"@)
                    && !update.notify && final(self).device_name == old(self).device_name,
            },
    {
        match event {
            DeviceEvent::Searching => ServiceUpdate { tray: TrayState::searching(), notify: false },
            DeviceEvent::Connecting { name, .. } => {
                let tray = TrayState::connecting(name.as_str());
                self.device_name = name;
                ServiceUpdate { tray, notify: false }
            },
            DeviceEvent::Connected { name, snapshot, .. } => {
                let tray = TrayState::connected(name.as_str(), &snapshot);
                self.device_name = name;
                ServiceUpdate { tray, notify: true }
            },
            DeviceEvent::Snapshot(snapshot) => ServiceUpdate {
                tray: TrayState::connected(self.device_name.as_str(), &snapshot),
                notify: false,
            },
            DeviceEvent::Error(_) => ServiceUpdate { tray: TrayState::failed(), notify: false },
            DeviceEvent::Disconnected => ServiceUpdate {
                tray: TrayState::disconnected(),
                notify: false,
            },
        }
    }

    /// Takes in one action picked in the tray menu.
    pub fn handle_action(&self, action: TrayAction) -> (step: ServiceStep)
        ensures
            step == match action {
                TrayAction::ShowWindow => ServiceStep::Stop { open_window: true, stop_watcher: false },
                TrayAction::Disconnect => ServiceStep::Send(DeviceCommand::Disconnect),
                TrayAction::SetListeningMode(mode) => ServiceStep::Send(
                    DeviceCommand::SetListeningMode(mode),
                ),
                TrayAction::Quit => ServiceStep::Stop { open_window: false, stop_watcher: true },
            },
    {
        match action {
            TrayAction::ShowWindow => ServiceStep::Stop { open_window: true, stop_watcher: false },
            TrayAction::Disconnect => ServiceStep::Send(DeviceCommand::Disconnect),
            TrayAction::SetListeningMode(mode) => ServiceStep::Send(
                DeviceCommand::SetListeningMode(mode),
            ),
            TrayAction::Quit => ServiceStep::Stop { open_window: false, stop_watcher: true },
        }
    }
}


/// Which tabs the window offers: the controls tab exactly when the device
/// reported daily or earbud controls, the ambient tab exactly when it has
/// manual strengths or listening modes, and the equalizer always, each
/// offered once, in the order ambient, equalizer, controls.
pub proof fn lemma_tabs_follow_device(model: AppModel)
    ensures
        ({
            let has_ambient = model.supports_manual_ambient_ranges
                || model.snapshot.mode_options@.len() > 0;
            let has_controls = model.snapshot.daily_controls@.len() > 0
                || model.snapshot.earbud_controls@.len() > 0;
            let tabs = visible_tabs_spec(has_ambient, has_controls);
            &&& tabs.contains(ActiveTab::Controls) <==> has_controls
            &&& tabs.contains(ActiveTab::Ambient) <==> has_ambient
            &&& tabs.contains(ActiveTab::Equalizer)
            &&& tabs.len() == 1 + (if has_ambient { 1int } else { 0 }) + (if has_controls {
                1int
            } else {
                0
            })
            &&& tabs.last() == (if has_controls {
                ActiveTab::Controls
            } else {
                ActiveTab::Equalizer
            })
            &&& tabs[0] == (if has_ambient {
                ActiveTab::Ambient
            } else {
                ActiveTab::Equalizer
            })
        }),
{
    let has_ambient = model.supports_manual_ambient_ranges || model.snapshot.mode_options@.len() > 0;
    let has_controls = model.snapshot.daily_controls@.len() > 0
        || model.snapshot.earbud_controls@.len() > 0;
    let tabs = visible_tabs_spec(has_ambient, has_controls);
    if has_ambient && has_controls {
        assert(tabs =~= seq![ActiveTab::Ambient, ActiveTab::Equalizer, ActiveTab::Controls]);
        assert(tabs[0] == ActiveTab::Ambient && tabs[1] == ActiveTab::Equalizer && tabs[2]
            == ActiveTab::Controls);
    } else if has_ambient {
        assert(tabs =~= seq![ActiveTab::Ambient, ActiveTab::Equalizer]);
        assert(tabs[0] == ActiveTab::Ambient && tabs[1] == ActiveTab::Equalizer);
        assert(!tabs.contains(ActiveTab::Controls));
    } else if has_controls {
        assert(tabs =~= seq![ActiveTab::Equalizer, ActiveTab::Controls]);
        assert(tabs[0] == ActiveTab::Equalizer && tabs[1] == ActiveTab::Controls);
        assert(!tabs.contains(ActiveTab::Ambient));
    } else {
        assert(tabs =~= seq![ActiveTab::Equalizer]);
        assert(tabs[0] == ActiveTab::Equalizer);
        assert(!tabs.contains(ActiveTab::Controls));
        assert(!tabs.contains(ActiveTab::Ambient));
    }
}

} // verus!
