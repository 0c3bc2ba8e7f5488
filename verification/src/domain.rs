//! The device model the user interface works with: listening modes, the
//! settings a device reports, the snapshot built from them, and the setting
//! writes that each user command turns into.

use vstd::prelude::*;

use crate::text::{chars_of, parse_u16, parse_u16_spec, text_eq};

verus! {

/// The ambient sound mode of the earbuds.
#[derive(Clone, Copy, Debug, PartialEq, Eq, Hash, Structural)]
pub enum ListeningMode {
    NoiseCanceling,
    Transparency,
    Normal,
}

impl Default for ListeningMode {
    fn default() -> (mode: Self)
        ensures
            mode == ListeningMode::Normal,
    {
        ListeningMode::Normal
    }
}

/// The device settings this application reads or writes.
#[derive(Clone, Copy, Debug, PartialEq, Eq, Hash, Structural)]
pub enum SettingId {
    AmbientSoundMode,
    ManualNoiseCanceling,
    ManualTransparency,
    PresetEqualizerProfile,
    CustomEqualizerProfile,
    VolumeAdjustments,
    BatteryLevel,
    BatteryLevelLeft,
    BatteryLevelRight,
    CaseBatteryLevel,
    WindNoiseSuppression,
    WearingDetection,
    EasyChat,
    EasyChatWaitTime,
    AutoPowerOff,
    Ldac,
    SoundLeakCompensation,
    SinglePress,
    DoublePress,
    LeftSinglePress,
    LeftDoublePress,
    LeftTriplePress,
    LeftLongPress,
    LeftSlideUp,
    LeftSlideDown,
    RightSinglePress,
    RightDoublePress,
    RightTriplePress,
    RightLongPress,
    RightSlideUp,
    RightSlideDown,
}

/// The raw and the translated option names of a selection setting.
#[derive(Clone, Debug, PartialEq, Eq)]
pub struct Select {
    pub options: Vec<String>,
    pub localized_options: Vec<String>,
}

/// The bounds of a numeric setting.
#[derive(Clone, Copy, Debug, PartialEq, Eq)]
pub struct Range {
    pub start: i32,
    pub end: i32,
    pub step: i32,
}

/// The bands and the gain limits of an equalizer.
#[derive(Clone, Debug, PartialEq, Eq)]
pub struct Equalizer {
    pub band_hz: Vec<u16>,
    pub fraction_digits: i16,
    pub min: i16,
    pub max: i16,
}

/// A setting as the device reports it.
#[allow(inconsistent_fields)]
#[derive(Clone, Debug, PartialEq, Eq)]
pub enum Setting {
    Toggle { value: bool },
    I32Range { setting: Range, value: i32 },
    Select { setting: Select, value: String },
    OptionalSelect { setting: Select, value: Option<String> },
    Information { value: String, translated_value: String },
    Equalizer { setting: Equalizer, read_only: bool, value: Vec<i16> },
    PresetEqualizerProfileSelect {
        equalizer: Equalizer,
        select: Select,
        presets: Vec<Vec<i16>>,
        value: Option<String>,
    },
    /// Any other kind of setting; the application does not display it.
    Unsupported,
}

/// A value written to a device setting.
#[derive(Clone, Debug, PartialEq, Eq)]
pub enum Value {
    String(String),
    OptionalString(Option<String>),
    Bool(bool),
    I32(i32),
    I16Vec(Vec<i16>),
}

/// The mathematical content of a [`Value`].
#[verifier::ext_equal]
pub enum ValueView {
    Text(Seq<char>),
    OptionalText(Option<Seq<char>>),
    Bool(bool),
    I32(i32),
    I16Vec(Seq<i16>),
}

pub open spec fn opt_text(value: Option<String>) -> Option<Seq<char>> {
    match value {
        Some(s) => Some(s@),
        None => None,
    }
}

impl View for Value {
    type V = ValueView;

    open spec fn view(&self) -> ValueView {
        match self {
            Value::String(s) => ValueView::Text(s@),
            Value::OptionalString(o) => ValueView::OptionalText(opt_text(*o)),
            Value::Bool(b) => ValueView::Bool(*b),
            Value::I32(n) => ValueView::I32(*n),
            Value::I16Vec(v) => ValueView::I16Vec(v@),
        }
    }
}

/// A request from the user interface to the device.
#[derive(Clone, Debug, PartialEq, Eq)]
pub enum DeviceCommand {
    Disconnect,
    SetListeningMode(ListeningMode),
    SetAmbientLevel(u8),
    SetPreset(String),
    SetEqualizer(Vec<i16>),
    SetToggle(SettingId, bool),
    SetSelect { id: SettingId, value: Option<String>, optional: bool },
}

/// The protocol name of a listening mode.
pub open spec fn mode_text(mode: ListeningMode) -> Seq<char> {
    match mode {
        ListeningMode::NoiseCanceling => "NoiseCanceling"@,
        ListeningMode::Transparency => "Transparency"@,
        ListeningMode::Normal => "Normal"@,
    }
}

/// The listening mode a protocol name stands for; an unknown name means
/// `Normal`.
pub open spec fn parse_mode_spec(value: Seq<char>) -> ListeningMode {
    if value == "NoiseCanceling"@ {
        ListeningMode::NoiseCanceling
    } else if value == "Transparency"@ {
        ListeningMode::Transparency
    } else {
        ListeningMode::Normal
    }
}

/// The protocol name of `mode`.
pub fn listening_mode_value(mode: ListeningMode) -> (value: &'static str)
    ensures
        value@ == mode_text(mode),
{
    match mode {
        ListeningMode::NoiseCanceling => "NoiseCanceling",
        ListeningMode::Transparency => "Transparency",
        ListeningMode::Normal => "Normal",
    }
}

/// The listening mode named `value`; unknown names give `Normal`.
pub fn parse_listening_mode(value: &str) -> (mode: ListeningMode)
    ensures
        mode == parse_mode_spec(value@),
{
    if text_eq(value, "NoiseCanceling") {
        ListeningMode::NoiseCanceling
    } else if text_eq(value, "Transparency") {
        ListeningMode::Transparency
    } else {
        ListeningMode::Normal
    }
}

/// Reading back the protocol name of a mode gives the same mode.
pub proof fn lemma_listening_mode_round_trip(mode: ListeningMode)
    ensures
        parse_mode_spec(mode_text(mode)) == mode,
{
    reveal_strlit("NoiseCanceling");
    reveal_strlit("Transparency");
    reveal_strlit("Normal");
    assert("Transparency"@ != "NoiseCanceling"@) by {
        assert("Transparency"@.len() != "NoiseCanceling"@.len());
    }
    assert("Normal"@ != "NoiseCanceling"@) by {
        assert("Normal"@.len() != "NoiseCanceling"@.len());
    }
    assert("Normal"@ != "Transparency"@) by {
        assert("Normal"@.len() != "Transparency"@.len());
    }
}

/// The ambient level `level` forced into the range `1..=10`.
pub open spec fn clamp_level(level: u8) -> int {
    if level < 1 {
        1
    } else if level > 10 {
        10
    } else {
        level as int
    }
}

/// The writes that select ambient level `level`: levels 1 to 5 are
/// transparency strengths 5 down to 1, levels 6 to 10 are noise-canceling
/// strengths 1 to 5.
pub open spec fn ambient_level_changes_spec(level: u8) -> Seq<(SettingId, ValueView)> {
    let level = clamp_level(level);
    if level <= 5 {
        seq![
            (SettingId::AmbientSoundMode, ValueView::Text(mode_text(ListeningMode::Transparency))),
            (SettingId::ManualTransparency, ValueView::I32((6 - level) as i32)),
        ]
    } else {
        seq![
            (SettingId::AmbientSoundMode, ValueView::Text(mode_text(ListeningMode::NoiseCanceling))),
            (SettingId::ManualNoiseCanceling, ValueView::I32((level - 5) as i32)),
        ]
    }
}

/// The setting writes that carry out `command`, in order.
pub open spec fn setting_changes_spec(command: DeviceCommand) -> Seq<(SettingId, ValueView)> {
    match command {
        DeviceCommand::Disconnect => seq![],
        DeviceCommand::SetListeningMode(mode) => seq![
            (SettingId::AmbientSoundMode, ValueView::Text(mode_text(mode))),
        ],
        DeviceCommand::SetAmbientLevel(level) => ambient_level_changes_spec(level),
        DeviceCommand::SetPreset(value) => seq![
            (SettingId::PresetEqualizerProfile, ValueView::Text(value@)),
        ],
        DeviceCommand::SetEqualizer(gains) => seq![
            (SettingId::VolumeAdjustments, ValueView::I16Vec(gains@)),
        ],
        DeviceCommand::SetToggle(id, value) => seq![(id, ValueView::Bool(value))],
        DeviceCommand::SetSelect { id, value, optional } => seq![
            (
                id,
                if optional {
                    ValueView::OptionalText(opt_text(value))
                } else {
                    ValueView::Text(
                        match value {
                            Some(s) => s@,
                            None => Seq::empty(),
                        },
                    )
                },
            ),
        ],
    }
}

/// The content of a list of setting writes.
pub open spec fn changes_view(changes: Seq<(SettingId, Value)>) -> Seq<(SettingId, ValueView)> {
    changes.map_values(|change: (SettingId, Value)| (change.0, change.1@))
}

fn text_value(text: &str) -> (value: Value)
    ensures
        value@ == ValueView::Text(text@),
{
    Value::String(String::from_str(text))
}

fn ambient_level_changes(level: u8) -> (changes: Vec<(SettingId, Value)>)
    ensures
        changes_view(changes@) == ambient_level_changes_spec(level),
{
    let clamped: u8 = if level < 1 {
        1
    } else if level > 10 {
        10
    } else {
        level
    };
    let mut changes: Vec<(SettingId, Value)> = Vec::new();
    if clamped <= 5 {
        changes.push(
            (SettingId::AmbientSoundMode, text_value(listening_mode_value(ListeningMode::Transparency))),
        );
        changes.push((SettingId::ManualTransparency, Value::I32(6 - clamped as i32)));
    } else {
        changes.push(
            (SettingId::AmbientSoundMode, text_value(listening_mode_value(ListeningMode::NoiseCanceling))),
        );
        changes.push((SettingId::ManualNoiseCanceling, Value::I32(clamped as i32 - 5)));
    }
    assert(changes_view(changes@) =~= ambient_level_changes_spec(level));
    changes
}


fn single_change(id: SettingId, value: Value) -> (changes: Vec<(SettingId, Value)>)
    ensures
        changes_view(changes@) == seq![(id, value@)],
{
    let mut changes: Vec<(SettingId, Value)> = Vec::new();
    changes.push((id, value));
    assert(changes_view(changes@) =~= seq![(id, value@)]);
    changes
}

/// The setting writes that carry out `command`, in the order they are sent to
/// the device. `Disconnect` writes nothing: it is carried out by dropping the
/// Bluetooth connection.
pub fn setting_changes(command: DeviceCommand) -> (changes: Vec<(SettingId, Value)>)
    ensures
        changes_view(changes@) == setting_changes_spec(command),
{
    match command {
        DeviceCommand::Disconnect => {
            let changes: Vec<(SettingId, Value)> = Vec::new();
            assert(changes_view(changes@) =~= Seq::<(SettingId, ValueView)>::empty());
            changes
        },
        DeviceCommand::SetListeningMode(mode) => single_change(
            SettingId::AmbientSoundMode,
            text_value(listening_mode_value(mode)),
        ),
        DeviceCommand::SetAmbientLevel(level) => ambient_level_changes(level),
        DeviceCommand::SetPreset(value) => single_change(
            SettingId::PresetEqualizerProfile,
            Value::String(value),
        ),
        DeviceCommand::SetEqualizer(gains) => single_change(
            SettingId::VolumeAdjustments,
            Value::I16Vec(gains),
        ),
        DeviceCommand::SetToggle(id, value) => single_change(id, Value::Bool(value)),
        DeviceCommand::SetSelect { id, value, optional } => {
            let written = if optional {
                Value::OptionalString(value)
            } else {
                match value {
                    Some(text) => Value::String(text),
                    None => Value::String(String::new()),
                }
            };
            single_change(id, written)
        },
    }
}


/// One selectable option: the value the device uses and the label shown.
#[derive(Clone, Debug, Default, PartialEq, Eq)]
pub struct SelectOption {
    pub value: String,
    pub label: String,
}

#[verifier::ext_equal]
pub struct SelectOptionView {
    pub value: Seq<char>,
    pub label: Seq<char>,
}

impl View for SelectOption {
    type V = SelectOptionView;

    open spec fn view(&self) -> SelectOptionView {
        SelectOptionView { value: self.value@, label: self.label@ }
    }
}

pub open spec fn options_view(options: Seq<SelectOption>) -> Seq<SelectOptionView> {
    options.map_values(|option: SelectOption| option@)
}

/// The equalizer bands, their current gains, and the gain limits.
#[derive(Clone, Debug, Default, PartialEq, Eq)]
pub struct EqualizerState {
    pub frequencies_hz: Vec<u16>,
    pub gains: Vec<i16>,
    pub min: i16,
    pub max: i16,
    pub fraction_digits: i16,
}

#[verifier::ext_equal]
pub struct EqualizerStateView {
    pub frequencies_hz: Seq<u16>,
    pub gains: Seq<i16>,
    pub min: i16,
    pub max: i16,
    pub fraction_digits: i16,
}

impl View for EqualizerState {
    type V = EqualizerStateView;

    open spec fn view(&self) -> EqualizerStateView {
        EqualizerStateView {
            frequencies_hz: self.frequencies_hz@,
            gains: self.gains@,
            min: self.min,
            max: self.max,
            fraction_digits: self.fraction_digits,
        }
    }
}

/// The current value of a control, with what the user may choose from.
#[derive(Clone, Debug, PartialEq, Eq)]
pub enum ControlValue {
    Toggle(bool),
    Select { value: Option<String>, options: Vec<SelectOption>, optional: bool },
}

#[verifier::ext_equal]
pub enum ControlValueView {
    Toggle(bool),
    Select { value: Option<Seq<char>>, options: Seq<SelectOptionView>, optional: bool },
}

impl View for ControlValue {
    type V = ControlValueView;

    open spec fn view(&self) -> ControlValueView {
        match self {
            ControlValue::Toggle(on) => ControlValueView::Toggle(*on),
            ControlValue::Select { value, options, optional } => ControlValueView::Select {
                value: opt_text(*value),
                options: options_view(options@),
                optional: *optional,
            },
        }
    }
}

/// A labelled control shown in the daily or the earbud controls list.
#[derive(Clone, Debug, PartialEq, Eq)]
pub struct ControlSetting {
    pub id: SettingId,
    pub label: String,
    pub value: ControlValue,
}

#[verifier::ext_equal]
pub struct ControlSettingView {
    pub id: SettingId,
    pub label: Seq<char>,
    pub value: ControlValueView,
}

impl View for ControlSetting {
    type V = ControlSettingView;

    open spec fn view(&self) -> ControlSettingView {
        ControlSettingView { id: self.id, label: self.label@, value: self.value@ }
    }
}

pub open spec fn controls_view(controls: Seq<ControlSetting>) -> Seq<ControlSettingView> {
    controls.map_values(|control: ControlSetting| control@)
}

/// Everything the user interface shows about a connected device.
#[derive(Clone, Debug, PartialEq, Eq)]
pub struct DeviceSnapshot {
    pub battery_left: Option<u8>,
    pub battery_right: Option<u8>,
    pub battery_case: Option<u8>,
    pub listening_mode: ListeningMode,
    pub ambient_level: Option<u8>,
    pub mode_options: Vec<SelectOption>,
    pub selected_preset: Option<String>,
    pub preset_options: Vec<SelectOption>,
    pub equalizer: Option<EqualizerState>,
    pub daily_controls: Vec<ControlSetting>,
    pub earbud_controls: Vec<ControlSetting>,
}

#[verifier::ext_equal]
pub struct SnapshotView {
    pub battery_left: Option<u8>,
    pub battery_right: Option<u8>,
    pub battery_case: Option<u8>,
    pub listening_mode: ListeningMode,
    pub ambient_level: Option<u8>,
    pub mode_options: Seq<SelectOptionView>,
    pub selected_preset: Option<Seq<char>>,
    pub preset_options: Seq<SelectOptionView>,
    pub equalizer: Option<EqualizerStateView>,
    pub daily_controls: Seq<ControlSettingView>,
    pub earbud_controls: Seq<ControlSettingView>,
}

pub open spec fn equalizer_view(equalizer: Option<EqualizerState>) -> Option<EqualizerStateView> {
    match equalizer {
        Some(e) => Some(e@),
        None => None,
    }
}

impl View for DeviceSnapshot {
    type V = SnapshotView;

    open spec fn view(&self) -> SnapshotView {
        SnapshotView {
            battery_left: self.battery_left,
            battery_right: self.battery_right,
            battery_case: self.battery_case,
            listening_mode: self.listening_mode,
            ambient_level: self.ambient_level,
            mode_options: options_view(self.mode_options@),
            selected_preset: opt_text(self.selected_preset),
            preset_options: options_view(self.preset_options@),
            equalizer: equalizer_view(self.equalizer),
            daily_controls: controls_view(self.daily_controls@),
            earbud_controls: controls_view(self.earbud_controls@),
        }
    }
}

/// What a device that reports nothing looks like.
pub open spec fn empty_snapshot() -> SnapshotView {
    SnapshotView {
        battery_left: None,
        battery_right: None,
        battery_case: None,
        listening_mode: ListeningMode::Normal,
        ambient_level: None,
        mode_options: Seq::empty(),
        selected_preset: None,
        preset_options: Seq::empty(),
        equalizer: None,
        daily_controls: Seq::empty(),
        earbud_controls: Seq::empty(),
    }
}

impl Default for DeviceSnapshot {
    fn default() -> (snapshot: Self)
        ensures
            snapshot@ == empty_snapshot(),
    {
        let snapshot = DeviceSnapshot {
            battery_left: None,
            battery_right: None,
            battery_case: None,
            listening_mode: ListeningMode::Normal,
            ambient_level: None,
            mode_options: Vec::new(),
            selected_preset: None,
            preset_options: Vec::new(),
            equalizer: None,
            daily_controls: Vec::new(),
            earbud_controls: Vec::new(),
        };
        assert(snapshot@ =~= empty_snapshot());
        snapshot
    }
}

// ---------------------------------------------------------------------------
// What each kind of setting contributes to the snapshot.
// ---------------------------------------------------------------------------

/// The options of a selection: the label of option `i` is its localized name
/// when one exists, else the raw option name.
pub open spec fn select_options_spec(select: Select) -> Seq<SelectOptionView> {
    Seq::new(
        select.options@.len(),
        |i: int|
            SelectOptionView {
                value: select.options@[i]@,
                label: if i < select.localized_options@.len() {
                    select.localized_options@[i]@
                } else {
                    select.options@[i]@
                },
            },
    )
}

fn select_options(select: Select) -> (options: Vec<SelectOption>)
    ensures
        options_view(options@) == select_options_spec(select),
{
    let mut options: Vec<SelectOption> = Vec::new();
    let n = select.options.len();
    let mut i: usize = 0;
    while i < n
        invariant
            n == select.options@.len(),
            i <= n,
            options@.len() == i,
            forall|j: int|
                0 <= j < i ==> #[trigger] options@[j]@ == select_options_spec(select)[j],
        decreases n - i,
    {
        let value = select.options[i].clone();
        let label = if i < select.localized_options.len() {
            select.localized_options[i].clone()
        } else {
            select.options[i].clone()
        };
        options.push(SelectOption { value, label });
        i = i + 1;
    }
    assert(options_view(options@) =~= select_options_spec(select));
    options
}

/// The control a setting is shown as, if it is a toggle or a selection.
pub open spec fn control_spec(setting: Setting) -> Option<ControlValueView> {
    match setting {
        Setting::Toggle { value } => Some(ControlValueView::Toggle(value)),
        Setting::Select { setting, value } => Some(
            ControlValueView::Select {
                value: Some(value@),
                options: select_options_spec(setting),
                optional: false,
            },
        ),
        Setting::OptionalSelect { setting, value } => Some(
            ControlValueView::Select {
                value: opt_text(value),
                options: select_options_spec(setting),
                optional: true,
            },
        ),
        _ => None,
    }
}

pub open spec fn control_value_view(control: Option<ControlValue>) -> Option<ControlValueView> {
    match control {
        Some(c) => Some(c@),
        None => None,
    }
}

fn control_value(setting: Option<Setting>) -> (control: Option<ControlValue>)
    ensures
        control_value_view(control) == control_of(setting),
{
    match setting {
        Some(Setting::Toggle { value }) => Some(ControlValue::Toggle(value)),
        Some(Setting::Select { setting, value }) => Some(
            ControlValue::Select {
                value: Some(value),
                options: select_options(setting),
                optional: false,
            },
        ),
        Some(Setting::OptionalSelect { setting, value }) => Some(
            ControlValue::Select { value, options: select_options(setting), optional: true },
        ),
        _ => None,
    }
}

/// Whether `s[k]` is the first `/` of `s`.
pub open spec fn first_slash_at(s: Seq<char>, k: int) -> bool {
    &&& 0 <= k < s.len()
    &&& s[k] == '/'
    &&& forall|j: int| 0 <= j < k ==> s[j] != '/'
}

/// The two numbers of a `current/maximum` text, split at its first `/`.
pub open spec fn fraction_parts(s: Seq<char>) -> Option<(u16, u16)> {
    if exists|k: int| first_slash_at(s, k) {
        let k = choose|k: int| first_slash_at(s, k);
        match (parse_u16_spec(s.subrange(0, k)), parse_u16_spec(s.subrange(k + 1, s.len() as int))) {
            (Some(current), Some(maximum)) => Some((current, maximum)),
            _ => None,
        }
    } else {
        None
    }
}

/// `100 * current`, saturating at `u16::MAX`.
pub open spec fn percent_scaled(current: u16) -> int {
    if current * 100 > 65535 {
        65535
    } else {
        current * 100
    }
}

/// A `current/maximum` text as a rounded percentage, at most 100.
pub open spec fn fraction_percent_spec(s: Seq<char>) -> Option<u8> {
    match fraction_parts(s) {
        Some((current, maximum)) => if maximum == 0 {
            None
        } else {
            let percent = (percent_scaled(current) + maximum / 2) / (maximum as int);
            Some(if percent < 100 { percent as u8 } else { 100u8 })
        },
        None => None,
    }
}

/// The rounding sum `100 * current + maximum / 2` of a fraction stays within
/// 16 bits (past that point the 16-bit arithmetic overflows).
pub open spec fn fraction_defined(s: Seq<char>) -> bool {
    match fraction_parts(s) {
        Some((current, maximum)) => maximum == 0 || percent_scaled(current) + maximum / 2 <= 65535,
        None => true,
    }
}

fn fraction_numbers(value: &String) -> (parts: Option<(u16, u16)>)
    ensures
        parts == fraction_parts(value@),
{
    let chars = chars_of(value.as_str());
    let n = chars.len();
    let mut k: usize = 0;
    while k < n
        invariant
            n == chars@.len(),
            chars@ == value@,
            k <= n,
            forall|j: int| 0 <= j < k ==> chars@[j] != '/',
        ensures
            k <= n,
            forall|j: int| 0 <= j < k ==> chars@[j] != '/',
            k < n ==> chars@[k as int] == '/',
        decreases n - k,
    {
        if chars[k] == '/' {
            break;
        }
        k = k + 1;
    }
    if k == n {
        assert(!exists|j: int| first_slash_at(value@, j));
        return None;
    }
    assert(first_slash_at(value@, k as int));
    proof {
        let c = choose|j: int| first_slash_at(value@, j);
        assert(first_slash_at(value@, c));
        if c < k {
            assert(chars@[c] != '/');
        }
        if k < c {
            assert(value@[k as int] != '/');
        }
        assert(c == k);
    }
    let current = match parse_u16(&chars, 0, k) {
        Some(v) => v,
        None => return None,
    };
    let maximum = match parse_u16(&chars, k + 1, n) {
        Some(v) => v,
        None => return None,
    };
    Some((current, maximum))
}

fn scaled_percent(current: u16) -> (scaled: u16)
    ensures
        scaled == percent_scaled(current),
{
    if current > 655 {
        65535
    } else {
        current * 100
    }
}

fn fraction_as_percent(value: &String) -> (percent: Option<u8>)
    requires
        fraction_defined(value@),
    ensures
        percent == fraction_percent_spec(value@),
{
    let (current, maximum) = match fraction_numbers(value) {
        Some(parts) => parts,
        None => return None,
    };
    if maximum == 0 {
        return None;
    }
    let scaled = scaled_percent(current);
    let percent = (scaled + maximum / 2) / maximum;
    let capped = if percent < 100 {
        percent
    } else {
        100
    };
    Some(capped as u8)
}

fn fraction_is_defined(value: &String) -> (defined: bool)
    ensures
        defined == fraction_defined(value@),
{
    match fraction_numbers(value) {
        Some((current, maximum)) => maximum == 0 || (scaled_percent(current) as u32) + (maximum
            / 2) as u32 <= 65535,
        None => true,
    }
}

/// The battery percentage a battery setting reports: a numeric level forced
/// into `0..=100`, or a `current/maximum` fraction as a rounded percentage.
pub open spec fn battery_percent_spec(setting: Option<Setting>) -> Option<u8> {
    match setting {
        Some(Setting::I32Range { value, .. }) => Some(
            if value < 0 {
                0u8
            } else if value > 100 {
                100u8
            } else {
                value as u8
            },
        ),
        Some(Setting::Information { value, .. }) => fraction_percent_spec(value@),
        _ => None,
    }
}

pub open spec fn battery_defined(setting: Option<Setting>) -> bool {
    match setting {
        Some(Setting::Information { value, .. }) => fraction_defined(value@),
        _ => true,
    }
}

fn battery_percent(setting: Option<Setting>) -> (percent: Option<u8>)
    requires
        battery_defined(setting),
    ensures
        percent == battery_percent_spec(setting),
{
    match setting {
        Some(Setting::I32Range { value, .. }) => {
            let clamped = if value < 0 {
                0
            } else if value > 100 {
                100
            } else {
                value
            };
            Some(clamped as u8)
        },
        Some(Setting::Information { value, .. }) => fraction_as_percent(&value),
        _ => None,
    }
}

/// The strength a numeric-range setting holds.
pub open spec fn range_spec(setting: Option<Setting>) -> Option<i32> {
    match setting {
        Some(Setting::I32Range { value, .. }) => Some(value),
        _ => None,
    }
}

fn range_value(setting: Option<Setting>) -> (value: Option<i32>)
    ensures
        value == range_spec(setting),
{
    match setting {
        Some(Setting::I32Range { value, .. }) => Some(value),
        _ => None,
    }
}

pub open spec fn clamp_int(value: int, low: int, high: int) -> int {
    if value < low {
        low
    } else if value > high {
        high
    } else {
        value
    }
}

/// The slider level of a noise-canceling strength: strength 1 is level 6,
/// strength 5 is level 10.
pub open spec fn noise_level_spec(strength: i32) -> u8 {
    clamp_int(strength + 5, 6, 10) as u8
}

/// The slider level of a transparency strength: strength 5 is level 1,
/// strength 1 is level 5.
pub open spec fn transparency_level_spec(strength: i32) -> u8 {
    clamp_int(6 - strength, 1, 5) as u8
}

/// The ambient slider level shown for `mode`. In noise-canceling mode the
/// noise-canceling strength decides, falling back to the transparency one; in
/// the other modes the transparency strength decides, falling back to the
/// noise-canceling one.
pub open spec fn ambient_level_spec(
    mode: ListeningMode,
    noise_canceling: Option<i32>,
    transparency: Option<i32>,
) -> Option<u8> {
    match mode {
        ListeningMode::NoiseCanceling => match (noise_canceling, transparency) {
            (Some(strength), _) => Some(noise_level_spec(strength)),
            (None, Some(strength)) => Some(noise_level_spec(strength)),
            (None, None) => None,
        },
        _ => match (transparency, noise_canceling) {
            (Some(strength), _) => Some(transparency_level_spec(strength)),
            (None, Some(strength)) => Some(transparency_level_spec(strength)),
            (None, None) => None,
        },
    }
}

/// The strength that decides the level stays clear of 32-bit overflow when it
/// is shifted onto the slider.
pub open spec fn ambient_level_defined(
    mode: ListeningMode,
    noise_canceling: Option<i32>,
    transparency: Option<i32>,
) -> bool {
    match mode {
        ListeningMode::NoiseCanceling => match (noise_canceling, transparency) {
            (Some(strength), _) => strength + 5 <= i32::MAX,
            (None, Some(strength)) => strength + 5 <= i32::MAX,
            (None, None) => true,
        },
        _ => match (transparency, noise_canceling) {
            (Some(strength), _) => 6 - strength <= i32::MAX,
            (None, Some(strength)) => 6 - strength <= i32::MAX,
            (None, None) => true,
        },
    }
}

fn noise_level(strength: i32) -> (level: u8)
    requires
        strength + 5 <= i32::MAX,
    ensures
        level == noise_level_spec(strength),
{
    let shifted = strength + 5;
    let clamped = if shifted < 6 {
        6
    } else if shifted > 10 {
        10
    } else {
        shifted
    };
    clamped as u8
}

fn transparency_level(strength: i32) -> (level: u8)
    requires
        6 - strength <= i32::MAX,
    ensures
        level == transparency_level_spec(strength),
{
    let shifted = 6 - strength;
    let clamped = if shifted < 1 {
        1
    } else if shifted > 5 {
        5
    } else {
        shifted
    };
    clamped as u8
}

fn ambient_level(
    mode: ListeningMode,
    noise_canceling: Option<i32>,
    transparency: Option<i32>,
) -> (level: Option<u8>)
    requires
        ambient_level_defined(mode, noise_canceling, transparency),
    ensures
        level == ambient_level_spec(mode, noise_canceling, transparency),
{
    match mode {
        ListeningMode::NoiseCanceling => match noise_canceling {
            Some(strength) => Some(noise_level(strength)),
            None => match transparency {
                Some(strength) => Some(noise_level(strength)),
                None => None,
            },
        },
        _ => match transparency {
            Some(strength) => Some(transparency_level(strength)),
            None => match noise_canceling {
                Some(strength) => Some(transparency_level(strength)),
                None => None,
            },
        },
    }
}


/// The listening mode and its options, read from the ambient sound mode
/// setting; a missing or non-selection setting reads as `Normal` with no
/// options.
pub open spec fn mode_spec(setting: Option<Setting>) -> ListeningMode {
    match setting {
        Some(Setting::Select { value, .. }) => parse_mode_spec(value@),
        _ => ListeningMode::Normal,
    }
}

pub open spec fn mode_options_spec(setting: Option<Setting>) -> Seq<SelectOptionView> {
    match setting {
        Some(Setting::Select { setting, .. }) => select_options_spec(setting),
        _ => Seq::empty(),
    }
}

fn mode_and_options(setting: Option<Setting>) -> (found: (ListeningMode, Vec<SelectOption>))
    ensures
        found.0 == mode_spec(setting),
        options_view(found.1@) == mode_options_spec(setting),
{
    match setting {
        Some(Setting::Select { setting, value }) => (
            parse_listening_mode(value.as_str()),
            select_options(setting),
        ),
        _ => {
            let none: Vec<SelectOption> = Vec::new();
            assert(options_view(none@) =~= Seq::<SelectOptionView>::empty());
            (ListeningMode::Normal, none)
        },
    }
}

/// The selected equalizer preset and the presets on offer.
pub open spec fn preset_spec(setting: Option<Setting>) -> Option<Seq<char>> {
    match setting {
        Some(Setting::PresetEqualizerProfileSelect { value, .. }) => opt_text(value),
        _ => None,
    }
}

pub open spec fn preset_options_spec(setting: Option<Setting>) -> Seq<SelectOptionView> {
    match setting {
        Some(Setting::PresetEqualizerProfileSelect { select, .. }) => select_options_spec(select),
        _ => Seq::empty(),
    }
}

fn preset_value_and_options(setting: Option<Setting>) -> (found: (
    Option<String>,
    Vec<SelectOption>,
))
    ensures
        opt_text(found.0) == preset_spec(setting),
        options_view(found.1@) == preset_options_spec(setting),
{
    match setting {
        Some(Setting::PresetEqualizerProfileSelect { select, value, .. }) => (
            value,
            select_options(select),
        ),
        _ => {
            let none: Vec<SelectOption> = Vec::new();
            assert(options_view(none@) =~= Seq::<SelectOptionView>::empty());
            (None, none)
        },
    }
}

/// The equalizer bands and gains of the volume adjustments setting.
pub open spec fn equalizer_spec(setting: Option<Setting>) -> Option<EqualizerStateView> {
    match setting {
        Some(Setting::Equalizer { setting, value, .. }) => Some(
            EqualizerStateView {
                frequencies_hz: setting.band_hz@,
                gains: value@,
                min: setting.min,
                max: setting.max,
                fraction_digits: setting.fraction_digits,
            },
        ),
        _ => None,
    }
}

fn equalizer_state(setting: Option<Setting>) -> (state: Option<EqualizerState>)
    ensures
        equalizer_view(state) == equalizer_spec(setting),
{
    match setting {
        Some(Setting::Equalizer { setting, value, .. }) => Some(
            EqualizerState {
                frequencies_hz: setting.band_hz,
                gains: value,
                min: setting.min,
                max: setting.max,
                fraction_digits: setting.fraction_digits,
            },
        ),
        _ => None,
    }
}

/// The daily controls, in the order they are listed.
pub open spec fn daily_control_ids_spec() -> Seq<SettingId> {
    seq![
        SettingId::WindNoiseSuppression,
        SettingId::WearingDetection,
        SettingId::EasyChat,
        SettingId::EasyChatWaitTime,
        SettingId::AutoPowerOff,
        SettingId::Ldac,
        SettingId::SoundLeakCompensation,
    ]
}

/// The earbud gesture controls, in the order they are listed.
pub open spec fn earbud_control_ids_spec() -> Seq<SettingId> {
    seq![
        SettingId::LeftSinglePress,
        SettingId::LeftDoublePress,
        SettingId::LeftTriplePress,
        SettingId::LeftLongPress,
        SettingId::LeftSlideUp,
        SettingId::LeftSlideDown,
        SettingId::RightSinglePress,
        SettingId::RightDoublePress,
        SettingId::RightTriplePress,
        SettingId::RightLongPress,
        SettingId::RightSlideUp,
        SettingId::RightSlideDown,
    ]
}

/// The daily controls, in the order they are listed.
pub fn daily_control_ids() -> (ids: Vec<SettingId>)
    ensures
        ids@ == daily_control_ids_spec(),
{
    let mut ids: Vec<SettingId> = Vec::new();
    ids.push(SettingId::WindNoiseSuppression);
    ids.push(SettingId::WearingDetection);
    ids.push(SettingId::EasyChat);
    ids.push(SettingId::EasyChatWaitTime);
    ids.push(SettingId::AutoPowerOff);
    ids.push(SettingId::Ldac);
    ids.push(SettingId::SoundLeakCompensation);
    assert(ids@ =~= daily_control_ids_spec());
    ids
}

/// The earbud gesture controls, in the order they are listed.
pub fn earbud_control_ids() -> (ids: Vec<SettingId>)
    ensures
        ids@ == earbud_control_ids_spec(),
{
    let mut ids: Vec<SettingId> = Vec::new();
    ids.push(SettingId::LeftSinglePress);
    ids.push(SettingId::LeftDoublePress);
    ids.push(SettingId::LeftTriplePress);
    ids.push(SettingId::LeftLongPress);
    ids.push(SettingId::LeftSlideUp);
    ids.push(SettingId::LeftSlideDown);
    ids.push(SettingId::RightSinglePress);
    ids.push(SettingId::RightDoublePress);
    ids.push(SettingId::RightTriplePress);
    ids.push(SettingId::RightLongPress);
    ids.push(SettingId::RightSlideUp);
    ids.push(SettingId::RightSlideDown);
    assert(ids@ =~= earbud_control_ids_spec());
    ids
}

pub open spec fn control_of(setting: Option<Setting>) -> Option<ControlValueView> {
    match setting {
        Some(s) => control_spec(s),
        None => None,
    }
}

/// The controls listed for `ids`, given what the device reported for each id
/// (`found`) and the label of each id (`labels`): ids whose setting is not a
/// toggle or a selection are left out, the others keep their order.
pub open spec fn controls_spec(
    ids: Seq<SettingId>,
    found: Seq<Option<Setting>>,
    labels: Seq<String>,
) -> Seq<ControlSettingView>
    decreases ids.len(),
{
    if ids.len() == 0 {
        Seq::empty()
    } else {
        let n = ids.len() - 1;
        let rest = controls_spec(ids.take(n), found.take(n), labels.take(n));
        match control_of(found[n]) {
            Some(value) => rest.push(ControlSettingView { id: ids[n], label: labels[n]@, value }),
            None => rest,
        }
    }
}

fn collect_controls<F, L>(setting: &F, label: &L, ids: &Vec<SettingId>) -> (collected: (
    Vec<ControlSetting>,
    Ghost<Seq<Option<Setting>>>,
    Ghost<Seq<String>>,
)) where F: Fn(SettingId) -> Option<Setting>, L: Fn(SettingId) -> String
    requires
        forall|id: SettingId| setting.requires((id,)),
        forall|id: SettingId| label.requires((id,)),
    ensures
        collected.1@.len() == ids@.len(),
        collected.2@.len() == ids@.len(),
        forall|k: int|
            0 <= k < ids@.len() ==> call_ensures(*setting, (ids@[k],), #[trigger] collected.1@[k]),
        forall|k: int|
            0 <= k < ids@.len() && (#[trigger] control_of(collected.1@[k])) is Some ==> call_ensures(
                *label,
                (ids@[k],),
                collected.2@[k],
            ),
        controls_view(collected.0@) == controls_spec(ids@, collected.1@, collected.2@),
{
    let mut controls: Vec<ControlSetting> = Vec::new();
    let ghost mut found: Seq<Option<Setting>> = Seq::empty();
    let ghost mut labels: Seq<String> = Seq::empty();
    let n = ids.len();
    let mut i: usize = 0;
    while i < n
        invariant
            n == ids@.len(),
            i <= n,
            found.len() == i,
            labels.len() == i,
            forall|id: SettingId| setting.requires((id,)),
            forall|id: SettingId| label.requires((id,)),
            forall|k: int| 0 <= k < i ==> call_ensures(*setting, (ids@[k],), #[trigger] found[k]),
            forall|k: int|
                0 <= k < i && (#[trigger] control_of(found[k])) is Some ==> call_ensures(
                    *label,
                    (ids@[k],),
                    labels[k],
                ),
            controls_view(controls@) == controls_spec(
                ids@.take(i as int),
                found,
                labels,
            ),
        decreases n - i,
    {
        let id = ids[i];
        let reported = setting(id);
        let ghost reported_copy = reported;
        let ghost before = controls_view(controls@);
        let ghost old_found = found;
        let ghost old_labels = labels;
        let control = control_value(reported);
        match control {
            Some(value) => {
                let text = label(id);
                proof {
                    labels = labels.push(text);
                }
                let ghost value_view = value@;
                controls.push(ControlSetting { id, label: text, value });
                assert(controls_view(controls@) =~= before.push(
                    ControlSettingView { id, label: text@, value: value_view },
                ));
            },
            None => {
                proof {
                    labels = labels.push(arbitrary());
                }
            },
        }
        proof {
            found = found.push(reported_copy);
        }
        i = i + 1;
        assert(ids@.take(i as int).take(i - 1) =~= ids@.take(i - 1));
        assert(found.take(i - 1) =~= old_found);
        assert(labels.take(i - 1) =~= old_labels);
        assert(ids@.take(i as int)[i - 1] == id);
        assert(found[i - 1] == reported_copy);
        assert(controls_view(controls@) =~= controls_spec(ids@.take(i as int), found, labels));
    }
    assert(ids@.take(n as int) =~= ids@);
    (controls, Ghost(found), Ghost(labels))
}


/// What a device reported for every setting a snapshot reads, and the labels
/// given to the controls that were found.
pub struct SettingReadings {
    pub ambient_sound_mode: Option<Setting>,
    pub preset: Option<Setting>,
    pub battery_left: Option<Setting>,
    pub battery_right: Option<Setting>,
    pub battery_case: Option<Setting>,
    pub manual_noise_canceling: Option<Setting>,
    pub manual_transparency: Option<Setting>,
    pub volume_adjustments: Option<Setting>,
    pub daily: Seq<Option<Setting>>,
    pub daily_labels: Seq<String>,
    pub earbud: Seq<Option<Setting>>,
    pub earbud_labels: Seq<String>,
}

/// `readings` holds, for every setting a snapshot reads, a result that
/// `setting` can return for that setting.
pub open spec fn settings_read<F: Fn(SettingId) -> Option<Setting>>(
    setting: F,
    readings: SettingReadings,
) -> bool {
    &&& call_ensures(setting, (SettingId::AmbientSoundMode,), readings.ambient_sound_mode)
    &&& call_ensures(setting, (SettingId::PresetEqualizerProfile,), readings.preset)
    &&& call_ensures(setting, (SettingId::BatteryLevelLeft,), readings.battery_left)
    &&& call_ensures(setting, (SettingId::BatteryLevelRight,), readings.battery_right)
    &&& call_ensures(setting, (SettingId::CaseBatteryLevel,), readings.battery_case)
    &&& call_ensures(setting, (SettingId::ManualNoiseCanceling,), readings.manual_noise_canceling)
    &&& call_ensures(setting, (SettingId::ManualTransparency,), readings.manual_transparency)
    &&& call_ensures(setting, (SettingId::VolumeAdjustments,), readings.volume_adjustments)
    &&& readings.daily.len() == daily_control_ids_spec().len()
    &&& forall|k: int|
        0 <= k < readings.daily.len() ==> call_ensures(
            setting,
            (daily_control_ids_spec()[k],),
            #[trigger] readings.daily[k],
        )
    &&& readings.earbud.len() == earbud_control_ids_spec().len()
    &&& forall|k: int|
        0 <= k < readings.earbud.len() ==> call_ensures(
            setting,
            (earbud_control_ids_spec()[k],),
            #[trigger] readings.earbud[k],
        )
}

/// Every control found in `readings` carries a label that `label` can return
/// for its id.
pub open spec fn labels_read<L: Fn(SettingId) -> String>(
    label: L,
    readings: SettingReadings,
) -> bool {
    &&& readings.daily_labels.len() == readings.daily.len()
    &&& forall|k: int|
        0 <= k < readings.daily.len() && (#[trigger] control_of(readings.daily[k])) is Some
            ==> call_ensures(label, (daily_control_ids_spec()[k],), readings.daily_labels[k])
    &&& readings.earbud_labels.len() == readings.earbud.len()
    &&& forall|k: int|
        0 <= k < readings.earbud.len() && (#[trigger] control_of(readings.earbud[k])) is Some
            ==> call_ensures(label, (earbud_control_ids_spec()[k],), readings.earbud_labels[k])
}

/// The readings contain nothing on which the 16-bit battery arithmetic or the
/// 32-bit ambient strength arithmetic overflows.
pub open spec fn readings_defined(readings: SettingReadings) -> bool {
    &&& battery_defined(readings.battery_left)
    &&& battery_defined(readings.battery_right)
    &&& battery_defined(readings.battery_case)
    &&& ambient_level_defined(
        mode_spec(readings.ambient_sound_mode),
        range_spec(readings.manual_noise_canceling),
        range_spec(readings.manual_transparency),
    )
}

/// The snapshot of a device that reported `readings`.
pub open spec fn snapshot_spec(readings: SettingReadings) -> SnapshotView {
    let mode = mode_spec(readings.ambient_sound_mode);
    SnapshotView {
        battery_left: battery_percent_spec(readings.battery_left),
        battery_right: battery_percent_spec(readings.battery_right),
        battery_case: battery_percent_spec(readings.battery_case),
        listening_mode: mode,
        ambient_level: ambient_level_spec(
            mode,
            range_spec(readings.manual_noise_canceling),
            range_spec(readings.manual_transparency),
        ),
        mode_options: mode_options_spec(readings.ambient_sound_mode),
        selected_preset: preset_spec(readings.preset),
        preset_options: preset_options_spec(readings.preset),
        equalizer: equalizer_spec(readings.volume_adjustments),
        daily_controls: controls_spec(daily_control_ids_spec(), readings.daily, readings.daily_labels),
        earbud_controls: controls_spec(
            earbud_control_ids_spec(),
            readings.earbud,
            readings.earbud_labels,
        ),
    }
}

/// Builds the snapshot of a device from its settings: `setting` returns what
/// the device reports for an id (`None` when it has no such setting), `label`
/// returns the display name of a control.
pub fn snapshot_from_settings<F, L>(setting: F, label: L) -> (snapshot: DeviceSnapshot) where
    F: Fn(SettingId) -> Option<Setting>,
    L: Fn(SettingId) -> String,

    requires
        forall|id: SettingId| setting.requires((id,)),
        forall|id: SettingId| label.requires((id,)),
        forall|readings: SettingReadings| #[trigger]
            settings_read(setting, readings) ==> readings_defined(readings),
    ensures
        exists|readings: SettingReadings|
            #[trigger] settings_read(setting, readings) && labels_read(label, readings)
                && snapshot@ == snapshot_spec(readings),
{
    let mode_setting = setting(SettingId::AmbientSoundMode);
    let ghost mode_reading = mode_setting;
    let (listening_mode, mode_options) = mode_and_options(mode_setting);

    let preset_setting = setting(SettingId::PresetEqualizerProfile);
    let ghost preset_reading = preset_setting;
    let (selected_preset, preset_options) = preset_value_and_options(preset_setting);

    let left = setting(SettingId::BatteryLevelLeft);
    let right = setting(SettingId::BatteryLevelRight);
    let case = setting(SettingId::CaseBatteryLevel);
    let noise_canceling = setting(SettingId::ManualNoiseCanceling);
    let transparency = setting(SettingId::ManualTransparency);
    let volume = setting(SettingId::VolumeAdjustments);
    let ghost volume_reading = volume;

    let daily_ids = daily_control_ids();
    let (daily_controls, Ghost(daily), Ghost(daily_labels)) = collect_controls(
        &setting,
        &label,
        &daily_ids,
    );
    let earbud_ids = earbud_control_ids();
    let (earbud_controls, Ghost(earbud), Ghost(earbud_labels)) = collect_controls(
        &setting,
        &label,
        &earbud_ids,
    );

    let ghost readings = SettingReadings {
        ambient_sound_mode: mode_reading,
        preset: preset_reading,
        battery_left: left,
        battery_right: right,
        battery_case: case,
        manual_noise_canceling: noise_canceling,
        manual_transparency: transparency,
        volume_adjustments: volume_reading,
        daily,
        daily_labels,
        earbud,
        earbud_labels,
    };
    assert(settings_read(setting, readings));
    assert(labels_read(label, readings));

    let snapshot = DeviceSnapshot {
        battery_left: battery_percent(left),
        battery_right: battery_percent(right),
        battery_case: battery_percent(case),
        listening_mode,
        ambient_level: ambient_level(
            listening_mode,
            range_value(noise_canceling),
            range_value(transparency),
        ),
        mode_options,
        selected_preset,
        preset_options,
        equalizer: equalizer_state(volume),
        daily_controls,
        earbud_controls,
    };
    assert(snapshot@ =~= snapshot_spec(readings));
    snapshot
}


fn battery_is_defined(setting: &Option<Setting>) -> (defined: bool)
    ensures
        defined == battery_defined(*setting),
{
    match setting {
        Some(Setting::Information { value, .. }) => fraction_is_defined(value),
        _ => true,
    }
}

fn range_of(setting: &Option<Setting>) -> (value: Option<i32>)
    ensures
        value == range_spec(*setting),
{
    match setting {
        Some(Setting::I32Range { value, .. }) => Some(*value),
        _ => None,
    }
}

fn mode_of(setting: &Option<Setting>) -> (mode: ListeningMode)
    ensures
        mode == mode_spec(*setting),
{
    match setting {
        Some(Setting::Select { value, .. }) => parse_listening_mode(value.as_str()),
        _ => ListeningMode::Normal,
    }
}

/// Whether the settings reported for the ambient sound mode, the three
/// battery levels and the two manual strengths keep a snapshot's arithmetic in
/// range (see `readings_defined`).
pub fn snapshot_inputs_defined(
    mode: &Option<Setting>,
    battery_left: &Option<Setting>,
    battery_right: &Option<Setting>,
    battery_case: &Option<Setting>,
    noise_canceling: &Option<Setting>,
    transparency: &Option<Setting>,
) -> (defined: bool)
    ensures
        defined == (battery_defined(*battery_left) && battery_defined(*battery_right)
            && battery_defined(*battery_case) && ambient_level_defined(
            mode_spec(*mode),
            range_spec(*noise_canceling),
            range_spec(*transparency),
        )),
{
    let batteries = battery_is_defined(battery_left) && battery_is_defined(battery_right)
        && battery_is_defined(battery_case);
    let noise = range_of(noise_canceling);
    let transparent = range_of(transparency);
    let ambient = match mode_of(mode) {
        ListeningMode::NoiseCanceling => match (noise, transparent) {
            (Some(strength), _) => strength <= i32::MAX - 5,
            (None, Some(strength)) => strength <= i32::MAX - 5,
            (None, None) => true,
        },
        _ => match (transparent, noise) {
            (Some(strength), _) => strength >= 6 - i32::MAX,
            (None, Some(strength)) => strength >= 6 - i32::MAX,
            (None, None) => true,
        },
    };
    batteries && ambient
}

// ---------------------------------------------------------------------------
// Laws.
// ---------------------------------------------------------------------------

/// A device whose reported settings are `readings` holds the value `value`
/// for `id`, for the settings that the ambient commands write.
pub open spec fn reading_reflects(readings: SettingReadings, id: SettingId, value: ValueView) -> bool {
    match (id, value) {
        (SettingId::AmbientSoundMode, ValueView::Text(text)) => readings.ambient_sound_mode matches Some(
            Setting::Select { value: v, .. },
        ) && v@ == text,
        (SettingId::ManualTransparency, ValueView::I32(n)) => readings.manual_transparency matches Some(
            Setting::I32Range { value: v, .. },
        ) && v == n,
        (SettingId::ManualNoiseCanceling, ValueView::I32(n)) => readings.manual_noise_canceling matches Some(
            Setting::I32Range { value: v, .. },
        ) && v == n,
        _ => false,
    }
}

/// Every write of `changes` shows in `readings`.
pub open spec fn changes_applied(changes: Seq<(SettingId, ValueView)>, readings: SettingReadings) -> bool {
    forall|i: int| 0 <= i < changes.len() ==> #[trigger] reading_reflects(readings, changes[i].0, changes[i].1)
}

/// Writing a listening mode and reading the device back shows that mode.
pub proof fn lemma_listening_mode_read_back(mode: ListeningMode, readings: SettingReadings)
    requires
        changes_applied(setting_changes_spec(DeviceCommand::SetListeningMode(mode)), readings),
    ensures
        snapshot_spec(readings).listening_mode == mode,
{
    let changes = setting_changes_spec(DeviceCommand::SetListeningMode(mode));
    assert(reading_reflects(readings, changes[0].0, changes[0].1));
    lemma_listening_mode_round_trip(mode);
}

/// Writing an ambient level and reading the device back shows that level
/// (forced into `1..=10`): in transparency mode for levels 1 to 5, in
/// noise-canceling mode for levels 6 to 10, whatever the other strength
/// setting holds.
pub proof fn lemma_ambient_level_read_back(level: u8, readings: SettingReadings)
    requires
        changes_applied(ambient_level_changes_spec(level), readings),
    ensures
        snapshot_spec(readings).ambient_level == Some(clamp_level(level) as u8),
        snapshot_spec(readings).listening_mode == (if clamp_level(level) <= 5 {
            ListeningMode::Transparency
        } else {
            ListeningMode::NoiseCanceling
        }),
{
    let changes = ambient_level_changes_spec(level);
    assert(reading_reflects(readings, changes[0].0, changes[0].1));
    assert(reading_reflects(readings, changes[1].0, changes[1].1));
    if clamp_level(level) <= 5 {
        lemma_listening_mode_round_trip(ListeningMode::Transparency);
    } else {
        lemma_listening_mode_round_trip(ListeningMode::NoiseCanceling);
    }
}

/// The ambient level shown is always on the slider: 6 to 10 in
/// noise-canceling mode, 1 to 5 in the other modes.
pub proof fn lemma_ambient_level_on_slider(
    mode: ListeningMode,
    noise_canceling: Option<i32>,
    transparency: Option<i32>,
)
    ensures
        ambient_level_spec(mode, noise_canceling, transparency) matches Some(level) ==> if mode
            == ListeningMode::NoiseCanceling {
            6 <= level <= 10
        } else {
            1 <= level <= 5
        },
{
}

/// A battery level shown is a percentage: never more than 100.
pub proof fn lemma_battery_at_most_hundred(setting: Option<Setting>)
    ensures
        battery_percent_spec(setting) matches Some(percent) ==> percent <= 100,
{
}

proof fn lemma_no_controls(ids: Seq<SettingId>, found: Seq<Option<Setting>>, labels: Seq<String>)
    requires
        found.len() == ids.len(),
        forall|k: int| 0 <= k < found.len() ==> found[k] is None,
    ensures
        controls_spec(ids, found, labels) == Seq::<ControlSettingView>::empty(),
    decreases ids.len(),
{
    if ids.len() > 0 {
        let n = ids.len() - 1;
        lemma_no_controls(ids.take(n), found.take(n), labels.take(n));
        assert(found[n] is None);
    }
}

/// A device that reports none of the settings is shown as the empty snapshot.
pub proof fn lemma_nothing_reported_is_empty(readings: SettingReadings)
    requires
        readings.ambient_sound_mode is None,
        readings.preset is None,
        readings.battery_left is None,
        readings.battery_right is None,
        readings.battery_case is None,
        readings.manual_noise_canceling is None,
        readings.manual_transparency is None,
        readings.volume_adjustments is None,
        readings.daily.len() == daily_control_ids_spec().len(),
        readings.earbud.len() == earbud_control_ids_spec().len(),
        forall|k: int| 0 <= k < readings.daily.len() ==> #[trigger] readings.daily[k] is None,
        forall|k: int| 0 <= k < readings.earbud.len() ==> #[trigger] readings.earbud[k] is None,
    ensures
        snapshot_spec(readings) == empty_snapshot(),
{
    lemma_no_controls(daily_control_ids_spec(), readings.daily, readings.daily_labels);
    lemma_no_controls(earbud_control_ids_spec(), readings.earbud, readings.earbud_labels);
    assert(snapshot_spec(readings) =~= empty_snapshot());
}


/// The equalizer a snapshot shows is the volume adjustments the device
/// reported: the same bands, gains, fraction digits and gain limits, so the
/// shown minimum stays at or below the shown maximum whenever the device
/// reports them that way; with no such setting there is no equalizer.
pub proof fn lemma_equalizer_follows_device(readings: SettingReadings)
    ensures
        match readings.volume_adjustments {
            Some(Setting::Equalizer { setting, value, .. }) => {
                &&& snapshot_spec(readings).equalizer matches Some(shown)
                &&& shown.frequencies_hz == setting.band_hz@
                &&& shown.gains == value@
                &&& shown.min == setting.min
                &&& shown.max == setting.max
                &&& shown.fraction_digits == setting.fraction_digits
                &&& setting.min <= setting.max ==> shown.min <= shown.max
            },
            _ => snapshot_spec(readings).equalizer is None,
        },
{
}

/// A selection command writes exactly one change, to the selected setting,
/// carrying the option the user picked: as text for a required selection,
/// as an optional text for an optional one (where no pick clears it).
pub proof fn lemma_select_writes_picked_option(id: SettingId, value: Option<String>, optional: bool)
    ensures
        ({
            let changes = setting_changes_spec(DeviceCommand::SetSelect { id, value, optional });
            &&& changes.len() == 1
            &&& changes[0].0 == id
            &&& value matches Some(picked) ==> changes[0].1 == (if optional {
                ValueView::OptionalText(Some(picked@))
            } else {
                ValueView::Text(picked@)
            })
            &&& optional && value is None ==> changes[0].1 == ValueView::OptionalText(None)
        }),
{
}


/// Every other command writes what the user chose, to the setting it is
/// about: a toggle its new state, a preset its name, an equalizer its gains,
/// each as the only write; a listening mode writes one ambient-mode value that
/// reads back as that mode; a disconnect writes nothing.
pub proof fn lemma_commands_write_user_choice(command: DeviceCommand)
    ensures
        ({
            let changes = setting_changes_spec(command);
            match command {
                DeviceCommand::Disconnect => changes.len() == 0,
                DeviceCommand::SetListeningMode(mode) => {
                    &&& changes.len() == 1
                    &&& changes[0].0 == SettingId::AmbientSoundMode
                    &&& changes[0].1 matches ValueView::Text(written)
                    &&& parse_mode_spec(written) == mode
                },
                DeviceCommand::SetPreset(name) => changes == seq![
                    (SettingId::PresetEqualizerProfile, ValueView::Text(name@)),
                ],
                DeviceCommand::SetEqualizer(gains) => changes == seq![
                    (SettingId::VolumeAdjustments, ValueView::I16Vec(gains@)),
                ],
                DeviceCommand::SetToggle(id, on) => changes == seq![(id, ValueView::Bool(on))],
                _ => true,
            }
        }),
{
    if let DeviceCommand::SetListeningMode(mode) = command {
        lemma_listening_mode_round_trip(mode);
    }
}

/// The options of a selection list each option the device offers, in its
/// order: the value is the option's name, and the label its localized name
/// where the device gives one, else the name itself.
pub proof fn lemma_select_options_follow_device(select: Select)
    ensures
        select_options_spec(select).len() == select.options@.len(),
        forall|i: int|
            0 <= i < select.options@.len() ==> {
                &&& (#[trigger] select_options_spec(select)[i]).value == select.options@[i]@
                &&& i < select.localized_options@.len() ==> select_options_spec(select)[i].label
                    == select.localized_options@[i]@
                &&& i >= select.localized_options@.len() ==> select_options_spec(select)[i].label
                    == select.options@[i]@
            },
{
}

/// The snapshot's listening-mode and preset choices are those of the
/// device: the mode options are the options of the reported ambient-mode
/// selection, the selected preset is the reported preset, and the preset
/// options are the options of the reported preset selection; settings of
/// another kind offer nothing.
pub proof fn lemma_choices_follow_device(readings: SettingReadings)
    ensures
        match readings.ambient_sound_mode {
            Some(Setting::Select { setting, value }) => {
                &&& snapshot_spec(readings).mode_options == select_options_spec(setting)
                &&& snapshot_spec(readings).listening_mode == parse_mode_spec(value@)
            },
            _ => {
                &&& snapshot_spec(readings).mode_options.len() == 0
                &&& snapshot_spec(readings).listening_mode == ListeningMode::Normal
            },
        },
        match readings.preset {
            Some(Setting::PresetEqualizerProfileSelect { select, value, .. }) => {
                &&& snapshot_spec(readings).selected_preset == opt_text(value)
                &&& snapshot_spec(readings).preset_options == select_options_spec(select)
            },
            _ => {
                &&& snapshot_spec(readings).selected_preset is None
                &&& snapshot_spec(readings).preset_options.len() == 0
            },
        },
{
}

/// A numeric battery level is shown as it is when it is a percentage, and
/// pinned to the nearest end of `0..=100` otherwise; a reported level never
/// disappears.
pub proof fn lemma_battery_level_shown(setting: Setting)
    ensures
        setting matches Setting::I32Range { value, .. } ==> {
            &&& battery_percent_spec(Some(setting)) is Some
            &&& 0 <= value <= 100 ==> battery_percent_spec(Some(setting)) == Some(value as u8)
            &&& value < 0 ==> battery_percent_spec(Some(setting)) == Some(0u8)
            &&& value > 100 ==> battery_percent_spec(Some(setting)) == Some(100u8)
        },
        battery_percent_spec(None) is None,
{
}

/// A control shows the device's current value: a toggle its state, a
/// selection its selected option (always set for a required selection) with
/// the selection's options; other settings are not controls.
pub proof fn lemma_control_shows_device_value(setting: Setting)
    ensures
        match setting {
            Setting::Toggle { value } => control_spec(setting) == Some(ControlValueView::Toggle(value)),
            Setting::Select { setting: select, value } => control_spec(setting) == Some(
                ControlValueView::Select {
                    value: Some(value@),
                    options: select_options_spec(select),
                    optional: false,
                },
            ),
            Setting::OptionalSelect { setting: select, value } => control_spec(setting) == Some(
                ControlValueView::Select {
                    value: opt_text(value),
                    options: select_options_spec(select),
                    optional: true,
                },
            ),
            _ => control_spec(setting) is None,
        },
{
}

} // verus!
