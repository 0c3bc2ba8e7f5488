//! The decisions of the Bluetooth worker: the events it reports, which
//! device it looks for, how a configured address is read, what it writes for
//! a command, and the ambient level it restores after connecting.

use vstd::prelude::*;

use crate::devices::{profiles_view, DeviceProfile, ProfileView};
use crate::domain::{
    clamp_int, mode_text, range_spec, setting_changes, setting_changes_spec, changes_view,
    DeviceCommand, DeviceSnapshot, ListeningMode, Setting, SettingId, Value,
};
use crate::mac::{is_mac6_text, mac6_octets, mac_text, MacAddress};
use crate::text::text_eq;

verus! {

/// What the worker reports to the user interface.
#[derive(Clone, Debug, PartialEq, Eq)]
pub enum DeviceEvent {
    Searching,
    Connecting { name: String, icon: Option<String>, supports_manual_ambient_ranges: bool },
    Connected {
        name: String,
        snapshot: DeviceSnapshot,
        icon: Option<String>,
        supports_manual_ambient_ranges: bool,
    },
    Snapshot(DeviceSnapshot),
    Error(String),
    Disconnected,
}

/// A configuration value that could not be used.
#[derive(Clone, Debug, PartialEq, Eq)]
pub enum ConfigError {
    /// The configured device address is not a MAC address.
    InvalidMac { value: String },
}

impl ConfigError {
    /// The message shown for the error.
    pub fn message(&self) -> (message: String)
        ensures
            message@ == match self {
                ConfigError::InvalidMac { value } => "invalid SOUNDCORE_CONTROL_MAC value: "@ + value@,
            },
    {
        match self {
            ConfigError::InvalidMac { value } => {
                let mut message = String::from_str("invalid SOUNDCORE_CONTROL_MAC value: ");
                message.append(value.as_str());
                message
            },
        }
    }
}

/// Reads the configured device address: nothing configured means no address,
/// a configured text must be a MAC address.
pub fn parse_configured_mac(value: Option<&str>) -> (parsed: Result<Option<MacAddress>, ConfigError>)
    ensures
        match value {
            None => parsed == Ok::<Option<MacAddress>, ConfigError>(None),
            Some(text) => if is_mac6_text(text@) {
                parsed matches Ok(Some(address)) && address.octets@ == mac6_octets(text@)
            } else {
                parsed matches Err(ConfigError::InvalidMac { value: v }) && v@ == text@
            },
        },
{
    match value {
        None => Ok(None),
        Some(text) => match MacAddress::parse(text) {
            Some(address) => Ok(Some(address)),
            None => Err(ConfigError::InvalidMac { value: String::from_str(text) }),
        },
    }
}

/// The display names of `profiles` joined by `, `.
pub open spec fn joined_names(profiles: Seq<ProfileView>) -> Seq<char>
    decreases profiles.len(),
{
    if profiles.len() == 0 {
        Seq::empty()
    } else if profiles.len() == 1 {
        profiles[0].display_name
    } else {
        joined_names(profiles.drop_last()) + ", "@ + profiles.last().display_name
    }
}

/// The message reported when no supported device is connected.
pub open spec fn no_target_message_spec(
    configured: Option<MacAddress>,
    profiles: Seq<ProfileView>,
) -> Seq<char> {
    match configured {
        Some(address) => "configured device "@ + mac_text(address.octets@) + " is not connected"@,
        None => "No supported earbuds were found. Connect one of the following in Bluetooth settings, then reopen the app: "@
            + joined_names(profiles),
    }
}

/// The message reported when no supported device is connected: the
/// configured address when one is set, else the list of supported models.
pub fn no_target_message(configured: Option<MacAddress>, profiles: &Vec<DeviceProfile>) -> (message:
    String)
    ensures
        message@ == no_target_message_spec(configured, profiles_view(profiles@)),
{
    match configured {
        Some(address) => {
            let mut message = String::from_str("configured device ");
            message.append(address.to_text().as_str());
            message.append(" is not connected");
            message
        },
        None => {
            let mut message = String::from_str(
                "No supported earbuds were found. Connect one of the following in Bluetooth settings, then reopen the app: ",
            );
            let ghost start = message@;
            let ghost view = profiles_view(profiles@);
            let n = profiles.len();
            let mut i: usize = 0;
            while i < n
                invariant
                    n == profiles@.len(),
                    view == profiles_view(profiles@),
                    i <= n,
                    message@ == start + joined_names(view.take(i as int)),
                decreases n - i,
            {
                assert(view[i as int] == profiles@[i as int]@);
                if i > 0 {
                    message.append(", ");
                }
                message.append(profiles[i].display_name.as_str());
                i = i + 1;
                assert(view.take(i as int).drop_last() =~= view.take(i - 1));
                assert(message@ =~= start + joined_names(view.take(i as int)));
            }
            assert(view.take(n as int) =~= view);
            message
        },
    }
}

/// The text of a worker crash: the panic's message when it has one.
pub fn panic_text(message: Option<String>) -> (text: String)
    ensures
        text@ == match message {
            Some(m) => m@,
            None => "unknown panic"@,
        },
{
    match message {
        Some(m) => m,
        None => String::from_str("unknown panic"),
    }
}

/// What the worker does for a command.
#[derive(Debug, PartialEq, Eq)]
pub enum CommandPlan {
    /// Drop the Bluetooth connection.
    Disconnect,
    /// Write these settings, one at a time, stopping at the first failure.
    Write(Vec<(SettingId, Value)>),
}

/// The plan for `command`: a disconnect, or the setting writes that carry it
/// out.
pub fn plan_command(command: DeviceCommand) -> (plan: CommandPlan)
    ensures
        match command {
            DeviceCommand::Disconnect => plan == CommandPlan::Disconnect,
            _ => plan matches CommandPlan::Write(changes) && changes_view(changes@)
                == setting_changes_spec(command),
        },
{
    match command {
        DeviceCommand::Disconnect => CommandPlan::Disconnect,
        _ => CommandPlan::Write(setting_changes(command)),
    }
}

pub open spec fn unwrap_or_five(value: Option<i32>) -> int {
    match value {
        Some(v) => v as int,
        None => 5,
    }
}

/// The ambient level to restore after connecting, when the device reports an
/// active ambient mode but not the strength of that mode: in noise-canceling
/// mode the transparency strength (or 5) shifted onto the noise-canceling
/// half, in transparency mode the noise-canceling strength (or 5) shifted onto
/// the transparency half. Models without manual strengths are left alone.
pub open spec fn repair_level_spec(
    supports_manual_ambient_ranges: bool,
    mode: Option<Setting>,
    noise_canceling: Option<Setting>,
    transparency: Option<Setting>,
) -> Option<u8> {
    if !supports_manual_ambient_ranges {
        None
    } else {
        match mode {
            Some(Setting::Select { value, .. }) => if value@ == mode_text(
                ListeningMode::NoiseCanceling,
            ) && range_spec(noise_canceling) is None {
                Some(clamp_int(unwrap_or_five(range_spec(transparency)) + 5, 6, 10) as u8)
            } else if value@ == mode_text(ListeningMode::Transparency) && range_spec(
                transparency,
            ) is None {
                Some(clamp_int(6 - unwrap_or_five(range_spec(noise_canceling)), 1, 5) as u8)
            } else {
                None
            },
            _ => None,
        }
    }
}

/// The strength the repair starts from stays clear of 32-bit overflow.
pub open spec fn repair_defined(
    mode: Option<Setting>,
    noise_canceling: Option<Setting>,
    transparency: Option<Setting>,
) -> bool {
    match mode {
        Some(Setting::Select { value, .. }) => if value@ == mode_text(ListeningMode::NoiseCanceling)
            && range_spec(noise_canceling) is None {
            unwrap_or_five(range_spec(transparency)) + 5 <= i32::MAX
        } else if value@ == mode_text(ListeningMode::Transparency) && range_spec(
            transparency,
        ) is None {
            6 - unwrap_or_five(range_spec(noise_canceling)) <= i32::MAX
        } else {
            true
        },
        _ => true,
    }
}

fn strength(setting: &Option<Setting>) -> (value: Option<i32>)
    ensures
        value == range_spec(*setting),
{
    match setting {
        Some(Setting::I32Range { value, .. }) => Some(*value),
        _ => None,
    }
}

/// Whether the strength the ambient repair starts from stays clear of 32-bit
/// overflow (see `repair_defined`).
pub fn repair_inputs_defined(
    mode: &Option<Setting>,
    noise_canceling: &Option<Setting>,
    transparency: &Option<Setting>,
) -> (defined: bool)
    ensures
        defined == repair_defined(*mode, *noise_canceling, *transparency),
{
    let value = match mode {
        Some(Setting::Select { value, .. }) => value,
        _ => {
            return true;
        },
    };
    let noise = strength(noise_canceling);
    let transparent = strength(transparency);
    if text_eq(value.as_str(), "NoiseCanceling") && noise.is_none() {
        match transparent {
            Some(v) => v <= i32::MAX - 5,
            None => true,
        }
    } else if text_eq(value.as_str(), "Transparency") && transparent.is_none() {
        match noise {
            Some(v) => v >= 6 - i32::MAX,
            None => true,
        }
    } else {
        true
    }
}

/// The ambient level to restore after connecting, if any (see
/// `repair_level_spec`).
pub fn ambient_repair_level(
    supports_manual_ambient_ranges: bool,
    mode: &Option<Setting>,
    noise_canceling: &Option<Setting>,
    transparency: &Option<Setting>,
) -> (level: Option<u8>)
    requires
        supports_manual_ambient_ranges ==> repair_defined(*mode, *noise_canceling, *transparency),
    ensures
        level == repair_level_spec(
            supports_manual_ambient_ranges,
            *mode,
            *noise_canceling,
            *transparency,
        ),
{
    if !supports_manual_ambient_ranges {
        return None;
    }
    let value = match mode {
        Some(Setting::Select { value, .. }) => value,
        _ => {
            return None;
        },
    };
    let noise = strength(noise_canceling);
    let transparent = strength(transparency);
    if text_eq(value.as_str(), "NoiseCanceling") && noise.is_none() {
        let base: i32 = match transparent {
            Some(v) => v,
            None => 5,
        };
        let shifted = base + 5;
        let level = if shifted < 6 {
            6
        } else if shifted > 10 {
            10
        } else {
            shifted
        };
        Some(level as u8)
    } else if text_eq(value.as_str(), "Transparency") && transparent.is_none() {
        let base: i32 = match noise {
            Some(v) => v,
            None => 5,
        };
        let shifted = 6 - base;
        let level = if shifted < 1 {
            1
        } else if shifted > 5 {
            5
        } else {
            shifted
        };
        Some(level as u8)
    } else {
        None
    }
}


/// The ambient level restored after connecting keeps the device in the mode
/// it reported: a noise-canceling level (6 to 10) in noise-canceling mode, a
/// transparency level (1 to 5) in transparency mode.
pub proof fn lemma_repair_keeps_mode(
    mode: Option<Setting>,
    noise_canceling: Option<Setting>,
    transparency: Option<Setting>,
)
    ensures
        repair_level_spec(true, mode, noise_canceling, transparency) matches Some(level) ==> {
            &&& 1 <= level <= 10
            &&& crate::domain::mode_spec(mode) == crate::ui::ambient::level_mode(level)
        },
{
    crate::domain::lemma_listening_mode_round_trip(ListeningMode::NoiseCanceling);
    crate::domain::lemma_listening_mode_round_trip(ListeningMode::Transparency);
}

} // verus!
