//! What the system tray shows and offers: the tray state, the texts of its
//! title, tooltip and menu, and the actions its menu sends back.

use vstd::prelude::*;

use crate::domain::{DeviceSnapshot, ListeningMode};
use crate::text::{decimal, decimal_text};

verus! {

/// An action picked in the tray menu.
#[derive(Clone, Copy, Debug, PartialEq, Eq, Structural)]
pub enum TrayAction {
    ShowWindow,
    Disconnect,
    SetListeningMode(ListeningMode),
    Quit,
}

/// The name shown when no specific device is known yet.
pub open spec fn app_name() -> Seq<char> {
    "Soundcore Control"@
}

/// The state the tray icon and its menu present.
#[derive(Clone, Debug, PartialEq, Eq)]
pub struct TrayState {
    device_name: Option<String>,
    status: String,
    connected: bool,
    battery_left: Option<u8>,
    battery_right: Option<u8>,
    battery_case: Option<u8>,
    listening_mode: Option<ListeningMode>,
}

pub struct TrayStateView {
    pub device_name: Option<Seq<char>>,
    pub status: Seq<char>,
    pub connected: bool,
    pub battery_left: Option<u8>,
    pub battery_right: Option<u8>,
    pub battery_case: Option<u8>,
    pub listening_mode: Option<ListeningMode>,
}

impl View for TrayState {
    type V = TrayStateView;

    open spec fn view(&self) -> TrayStateView {
        self.state_view()
    }
}

impl TrayState {
    /// The content of the tray state.
    pub closed spec fn state_view(&self) -> TrayStateView {
        TrayStateView {
            device_name: match self.device_name {
                Some(name) => Some(name@),
                None => None,
            },
            status: self.status@,
            connected: self.connected,
            battery_left: self.battery_left,
            battery_right: self.battery_right,
            battery_case: self.battery_case,
            listening_mode: self.listening_mode,
        }
    }
}

/// A tray state with no device, no battery levels and no mode.
pub open spec fn idle_state(device_name: Option<Seq<char>>, status: Seq<char>) -> TrayStateView {
    TrayStateView {
        device_name,
        status,
        connected: false,
        battery_left: None,
        battery_right: None,
        battery_case: None,
        listening_mode: None,
    }
}

/// The tray state of a connected device called `device_name`.
pub open spec fn connected_state(device_name: Seq<char>, snapshot: DeviceSnapshot) -> TrayStateView {
    TrayStateView {
        device_name: Some(device_name),
        status: "Connected"@,
        connected: true,
        battery_left: snapshot.battery_left,
        battery_right: snapshot.battery_right,
        battery_case: snapshot.battery_case,
        listening_mode: Some(snapshot.listening_mode),
    }
}

impl Default for TrayState {
    fn default() -> (state: Self)
        ensures
            state@ == idle_state(None, "Disconnected"@),
    {
        TrayState::disconnected()
    }
}

impl TrayState {
    /// Looking for a device.
    pub fn searching() -> (state: Self)
        ensures
            state@ == idle_state(None, "Looking for earbuds…"@),
    {
        TrayState {
            status: String::from_str("Looking for earbuds…"),
            ..TrayState::disconnected()
        }
    }

    /// Connecting to the device called `device_name`.
    pub fn connecting(device_name: &str) -> (state: Self)
        ensures
            state@ == idle_state(Some(device_name@), "Connecting…"@),
    {
        TrayState {
            device_name: Some(String::from_str(device_name)),
            status: String::from_str("Connecting…"),
            ..TrayState::disconnected()
        }
    }

    /// No device is connected.
    pub fn disconnected() -> (state: Self)
        ensures
            state@ == idle_state(None, "Disconnected"@),
    {
        TrayState {
            device_name: None,
            status: String::from_str("Disconnected"),
            connected: false,
            battery_left: None,
            battery_right: None,
            battery_case: None,
            listening_mode: None,
        }
    }

    /// The connection failed and needs the user's attention.
    pub fn failed() -> (state: Self)
        ensures
            state@ == idle_state(None, "Connection needs attention"@),
    {
        TrayState {
            status: String::from_str("Connection needs attention"),
            ..TrayState::disconnected()
        }
    }

    /// Connected to `device_name`, showing the battery levels and the
    /// listening mode of `snapshot`.
    pub fn connected(device_name: &str, snapshot: &DeviceSnapshot) -> (state: Self)
        ensures
            state@ == connected_state(device_name@, *snapshot),
    {
        TrayState {
            device_name: Some(String::from_str(device_name)),
            status: String::from_str("Connected"),
            connected: true,
            battery_left: snapshot.battery_left,
            battery_right: snapshot.battery_right,
            battery_case: snapshot.battery_case,
            listening_mode: Some(snapshot.listening_mode),
        }
    }

    /// Whether a device is connected.
    pub fn is_connected(&self) -> (connected: bool)
        ensures
            connected == self@.connected,
    {
        self.connected
    }

    /// The listening mode of the connected device.
    pub fn listening_mode(&self) -> (mode: Option<ListeningMode>)
        ensures
            mode == self@.listening_mode,
    {
        self.listening_mode
    }

    /// The battery levels of the left earbud, the right earbud and the case.
    pub fn batteries(&self) -> (levels: (Option<u8>, Option<u8>, Option<u8>))
        ensures
            levels == (self@.battery_left, self@.battery_right, self@.battery_case),
    {
        (self.battery_left, self.battery_right, self.battery_case)
    }

    /// The status line, such as `Connected`.
    pub fn status(&self) -> (status: &str)
        ensures
            status@ == self@.status,
    {
        self.status.as_str()
    }

    /// The device's name, or the application's name when no device is known.
    pub fn device_label(&self) -> (label: &str)
        ensures
            label@ == device_label_spec(self@),
    {
        match &self.device_name {
            Some(name) => name.as_str(),
            None => "Soundcore Control",
        }
    }

    /// The tray icon's title: `<device> · <status>`.
    pub fn title(&self) -> (title: String)
        ensures
            title@ == device_label_spec(self@) + " · "@ + self@.status,
    {
        let mut title = String::from_str(self.device_label());
        title.append(" · ");
        title.append(self.status.as_str());
        title
    }

    /// The tooltip's text: `<status> · L <left> · R <right> · Case <case>`.
    pub fn tooltip_description(&self) -> (text: String)
        ensures
            text@ == self@.status + " · L "@ + battery_text(self@.battery_left) + " · R "@
                + battery_text(self@.battery_right) + " · Case "@ + battery_text(
                self@.battery_case,
            ),
    {
        let mut text = self.status.clone();
        text.append(" · L ");
        text.append(battery_value(self.battery_left).as_str());
        text.append(" · R ");
        text.append(battery_value(self.battery_right).as_str());
        text.append(" · Case ");
        text.append(battery_value(self.battery_case).as_str());
        text
    }

    /// The menu's status entry: `<device> — <status>`.
    pub fn menu_status_line(&self) -> (line: String)
        ensures
            line@ == device_label_spec(self@) + " — "@ + self@.status,
    {
        let mut line = String::from_str(self.device_label());
        line.append(" — ");
        line.append(self.status.as_str());
        line
    }

    /// The menu's battery entry: `L <left>   R <right>   Case <case>`.
    pub fn menu_battery_line(&self) -> (line: String)
        ensures
            line@ == "L "@ + battery_text(self@.battery_left) + "   R "@ + battery_text(
                self@.battery_right,
            ) + "   Case "@ + battery_text(self@.battery_case),
    {
        let mut line = String::from_str("L ");
        line.append(battery_value(self.battery_left).as_str());
        line.append("   R ");
        line.append(battery_value(self.battery_right).as_str());
        line.append("   Case ");
        line.append(battery_value(self.battery_case).as_str());
        line
    }

    /// The title of the ambient mode submenu: `Ambient mode: <mode>`.
    pub fn ambient_menu_label(&self) -> (label: String)
        ensures
            label@ == "Ambient mode: "@ + match self@.listening_mode {
                Some(mode) => mode_label_spec(mode),
                None => "—"@,
            },
    {
        let mut label = String::from_str("Ambient mode: ");
        match self.listening_mode {
            Some(mode) => label.append(listening_mode_label(mode)),
            None => label.append("—"),
        }
        label
    }
}

pub open spec fn device_label_spec(state: TrayStateView) -> Seq<char> {
    match state.device_name {
        Some(name) => name,
        None => app_name(),
    }
}

/// A battery level as `<n>%`, or `—` when it is unknown.
pub open spec fn battery_text(value: Option<u8>) -> Seq<char> {
    match value {
        Some(level) => decimal(level as nat) + "%"@,
        None => "—"@,
    }
}

/// A battery level as `<n>%`, or `—` when it is unknown.
pub fn battery_value(value: Option<u8>) -> (text: String)
    ensures
        text@ == battery_text(value),
{
    match value {
        Some(level) => {
            let mut text = decimal_text(level as u32);
            text.append("%");
            text
        },
        None => String::from_str("—"),
    }
}

/// The name of a listening mode as the menus show it.
pub open spec fn mode_label_spec(mode: ListeningMode) -> Seq<char> {
    match mode {
        ListeningMode::NoiseCanceling => "Noise Canceling"@,
        ListeningMode::Transparency => "Transparency"@,
        ListeningMode::Normal => "Normal"@,
    }
}

/// The name of a listening mode as the menus show it.
pub fn listening_mode_label(mode: ListeningMode) -> (label: &'static str)
    ensures
        label@ == mode_label_spec(mode),
{
    match mode {
        ListeningMode::NoiseCanceling => "Noise Canceling",
        ListeningMode::Transparency => "Transparency",
        ListeningMode::Normal => "Normal",
    }
}

/// The ambient modes in the order the tray's radio group lists them.
pub open spec fn radio_index_spec(mode: Option<ListeningMode>) -> usize {
    match mode {
        Some(ListeningMode::Transparency) | None => 0,
        Some(ListeningMode::Normal) => 1,
        Some(ListeningMode::NoiseCanceling) => 2,
    }
}

/// The radio entry selected for `mode` (transparency when it is unknown).
pub fn radio_index(mode: Option<ListeningMode>) -> (index: usize)
    ensures
        index == radio_index_spec(mode),
{
    match mode {
        Some(ListeningMode::Transparency) | None => 0,
        Some(ListeningMode::Normal) => 1,
        Some(ListeningMode::NoiseCanceling) => 2,
    }
}

pub open spec fn mode_for_radio_spec(index: usize) -> ListeningMode {
    if index == 0 {
        ListeningMode::Transparency
    } else if index == 1 {
        ListeningMode::Normal
    } else {
        ListeningMode::NoiseCanceling
    }
}

/// The listening mode of radio entry `index`.
pub fn mode_for_radio(index: usize) -> (mode: ListeningMode)
    ensures
        mode == mode_for_radio_spec(index),
{
    if index == 0 {
        ListeningMode::Transparency
    } else if index == 1 {
        ListeningMode::Normal
    } else {
        ListeningMode::NoiseCanceling
    }
}

/// Picking the radio entry that shows a mode selects that same mode.
pub proof fn lemma_radio_round_trip(mode: ListeningMode)
    ensures
        mode_for_radio_spec(radio_index_spec(Some(mode))) == mode,
{
}


/// The labels of the tray's ambient-mode radio group, entry by entry.
pub open spec fn radio_entry_labels() -> Seq<Seq<char>> {
    seq!["Transparency"@, "Normal"@, "Noise Canceling"@]
}

/// The radio entry marked for a mode is the entry that carries that mode's
/// label, and picking an entry selects the mode its label names.
pub proof fn lemma_radio_entries_match_labels(mode: ListeningMode, index: usize)
    ensures
        radio_index_spec(Some(mode)) < radio_entry_labels().len(),
        radio_entry_labels()[radio_index_spec(Some(mode)) as int] == mode_label_spec(mode),
        index < radio_entry_labels().len() ==> mode_label_spec(mode_for_radio_spec(index))
            == radio_entry_labels()[index as int],
{
}

} // verus!
