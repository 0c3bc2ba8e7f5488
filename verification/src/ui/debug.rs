//! The device simulation behind the debug window: a fake set of device
//! settings shaped like a chosen model, turned into a snapshot by the same
//! `snapshot_from_settings` a live connection goes through.

use vstd::prelude::*;

use crate::devices::DeviceModel;
use crate::domain::{
    clamp_int, fraction_percent_spec, fraction_defined, labels_read, mode_text,
    snapshot_from_settings, snapshot_spec, listening_mode_value, daily_control_ids_spec,
    earbud_control_ids_spec, DeviceSnapshot, Equalizer, ListeningMode, Range, Select, Setting,
    SettingId, SettingReadings, readings_defined, settings_read, first_slash_at, fraction_parts,
    percent_scaled,
};
use crate::text::{decimal, decimal_text, lemma_decimal_digits, lemma_decimal_parses, parse_u16_spec};

verus! {

/// The values the debug window lets the developer pick.
#[derive(Clone, Debug, PartialEq, Eq)]
pub struct DebugState {
    pub profile_index: usize,
    pub battery_level: u8,
    pub battery_left: u8,
    pub battery_right: u8,
    pub battery_case: u8,
    pub listening_mode: ListeningMode,
    pub ambient_level: u8,
    pub error_message: String,
}

impl Default for DebugState {
    fn default() -> (state: Self)
        ensures
            state.profile_index == 0,
            state.battery_level == 80,
            state.battery_left == 90,
            state.battery_right == 85,
            state.battery_case == 70,
            state.listening_mode == ListeningMode::Normal,
            state.ambient_level == 5,
            state.error_message@ == "Simulated device error"@,
    {
        DebugState {
            profile_index: 0,
            battery_level: 80,
            battery_left: 90,
            battery_right: 85,
            battery_case: 70,
            listening_mode: ListeningMode::Normal,
            ambient_level: 5,
            error_message: String::from_str("Simulated device error"),
        }
    }
}

/// Whether a model reports one overall battery level (headphones without a
/// case) rather than left, right and case levels.
pub open spec fn single_battery_spec(model: DeviceModel) -> bool {
    model == DeviceModel::SoundcoreA3028 || model == DeviceModel::SoundcoreA3062
}

pub fn is_single_battery(model: DeviceModel) -> (single: bool)
    ensures
        single == single_battery_spec(model),
{
    match model {
        DeviceModel::SoundcoreA3028 | DeviceModel::SoundcoreA3062 => true,
        _ => false,
    }
}

/// Whether a model has ambient mode switching at all.
pub open spec fn ambient_support_spec(model: DeviceModel) -> bool {
    model != DeviceModel::SoundcoreA3949
}

/// The daily controls a model has.
pub open spec fn daily_support_spec(model: DeviceModel) -> Seq<SettingId> {
    match model {
        DeviceModel::SoundcoreA3954 => daily_control_ids_spec(),
        DeviceModel::SoundcoreD1202C => seq![
            SettingId::WindNoiseSuppression,
            SettingId::AutoPowerOff,
            SettingId::Ldac,
        ],
        DeviceModel::SoundcoreA3949 => Seq::empty(),
        DeviceModel::SoundcoreA3028 => seq![SettingId::AutoPowerOff],
        DeviceModel::SoundcoreA3062 => seq![
            SettingId::WindNoiseSuppression,
            SettingId::AutoPowerOff,
            SettingId::Ldac,
        ],
    }
}

/// The button gestures a model lets the user assign.
pub open spec fn button_support_spec(model: DeviceModel) -> Seq<SettingId> {
    match model {
        DeviceModel::SoundcoreA3954 => earbud_control_ids_spec(),
        DeviceModel::SoundcoreD1202C => seq![
            SettingId::LeftSinglePress,
            SettingId::LeftDoublePress,
            SettingId::LeftTriplePress,
            SettingId::LeftLongPress,
            SettingId::RightSinglePress,
            SettingId::RightDoublePress,
            SettingId::RightTriplePress,
            SettingId::RightLongPress,
        ],
        DeviceModel::SoundcoreA3949 => seq![
            SettingId::LeftSinglePress,
            SettingId::LeftDoublePress,
            SettingId::LeftLongPress,
            SettingId::RightSinglePress,
            SettingId::RightDoublePress,
            SettingId::RightLongPress,
        ],
        DeviceModel::SoundcoreA3028 => Seq::empty(),
        DeviceModel::SoundcoreA3062 => seq![SettingId::SinglePress, SettingId::DoublePress],
    }
}

/// Which of the displayed settings a model has.
pub struct ModelSupport {
    pub ambient_mode: bool,
    pub daily_ids: Vec<SettingId>,
    pub button_ids: Vec<SettingId>,
}

fn ids_of(ids: &[SettingId]) -> (list: Vec<SettingId>)
    ensures
        list@ == ids@,
{
    let mut list: Vec<SettingId> = Vec::new();
    let n = ids.len();
    let mut i: usize = 0;
    while i < n
        invariant
            n == ids@.len(),
            i <= n,
            list@ == ids@.take(i as int),
        decreases n - i,
    {
        list.push(ids[i]);
        i = i + 1;
        assert(list@ =~= ids@.take(i as int));
    }
    assert(ids@.take(n as int) =~= ids@);
    list
}

/// The settings a model has, among those the user interface shows.
pub fn model_support(model: DeviceModel) -> (support: ModelSupport)
    ensures
        support.ambient_mode == ambient_support_spec(model),
        support.daily_ids@ == daily_support_spec(model),
        support.button_ids@ == button_support_spec(model),
{
    match model {
        DeviceModel::SoundcoreA3954 => ModelSupport {
            ambient_mode: true,
            daily_ids: crate::domain::daily_control_ids(),
            button_ids: crate::domain::earbud_control_ids(),
        },
        DeviceModel::SoundcoreD1202C => {
            let daily = [SettingId::WindNoiseSuppression, SettingId::AutoPowerOff, SettingId::Ldac];
            let buttons = [
                SettingId::LeftSinglePress,
                SettingId::LeftDoublePress,
                SettingId::LeftTriplePress,
                SettingId::LeftLongPress,
                SettingId::RightSinglePress,
                SettingId::RightDoublePress,
                SettingId::RightTriplePress,
                SettingId::RightLongPress,
            ];
            let support = ModelSupport {
                ambient_mode: true,
                daily_ids: ids_of(&daily),
                button_ids: ids_of(&buttons),
            };
            assert(support.daily_ids@ =~= daily_support_spec(model));
            assert(support.button_ids@ =~= button_support_spec(model));
            support
        },
        DeviceModel::SoundcoreA3949 => {
            let buttons = [
                SettingId::LeftSinglePress,
                SettingId::LeftDoublePress,
                SettingId::LeftLongPress,
                SettingId::RightSinglePress,
                SettingId::RightDoublePress,
                SettingId::RightLongPress,
            ];
            let support = ModelSupport {
                ambient_mode: false,
                daily_ids: Vec::new(),
                button_ids: ids_of(&buttons),
            };
            assert(support.daily_ids@ =~= daily_support_spec(model));
            assert(support.button_ids@ =~= button_support_spec(model));
            support
        },
        DeviceModel::SoundcoreA3028 => {
            let daily = [SettingId::AutoPowerOff];
            let support = ModelSupport {
                ambient_mode: true,
                daily_ids: ids_of(&daily),
                button_ids: Vec::new(),
            };
            assert(support.daily_ids@ =~= daily_support_spec(model));
            assert(support.button_ids@ =~= button_support_spec(model));
            support
        },
        DeviceModel::SoundcoreA3062 => {
            let daily = [SettingId::WindNoiseSuppression, SettingId::AutoPowerOff, SettingId::Ldac];
            let buttons = [SettingId::SinglePress, SettingId::DoublePress];
            let support = ModelSupport {
                ambient_mode: true,
                daily_ids: ids_of(&daily),
                button_ids: ids_of(&buttons),
            };
            assert(support.daily_ids@ =~= daily_support_spec(model));
            assert(support.button_ids@ =~= button_support_spec(model));
            support
        },
    }
}


/// The texts of a list of strings.
pub open spec fn texts(list: Seq<String>) -> Seq<Seq<char>> {
    list.map_values(|s: String| s@)
}

/// `select` offers `options` labelled `labels`.
pub open spec fn select_is(select: Select, options: Seq<Seq<char>>, labels: Seq<Seq<char>>) -> bool {
    texts(select.options@) == options && texts(select.localized_options@) == labels
}

/// The equalizer every simulated device has: eight bands from 100 Hz to
/// 12.8 kHz, gains from -6.0 to +6.0 dB in tenths.
pub open spec fn sample_equalizer_spec(equalizer: Equalizer) -> bool {
    &&& equalizer.band_hz@ == seq![100u16, 200u16, 400u16, 800u16, 1600u16, 3200u16, 6400u16, 12800u16]
    &&& equalizer.fraction_digits == 1
    &&& equalizer.min == -60
    &&& equalizer.max == 60
}

/// A battery level as the device reports it: `<level>/100`.
pub open spec fn fraction_text(level: u8) -> Seq<char> {
    decimal(level as nat) + "/100"@
}

pub open spec fn battery_setting_is(setting: Option<Setting>, level: u8) -> bool {
    setting matches Some(Setting::Information { value, translated_value }) && value@
        == fraction_text(level) && translated_value@ == decimal(level as nat) + "%"@
}

pub open spec fn ambient_setting_is(setting: Option<Setting>, mode: ListeningMode) -> bool {
    setting matches Some(Setting::Select { setting: select, value }) && value@ == mode_text(mode)
        && select_is(
        select,
        seq!["Normal"@, "Transparency"@, "NoiseCanceling"@],
        seq!["Normal"@, "Transparency"@, "Noise Canceling"@],
    )
}

pub open spec fn strength_setting_is(setting: Option<Setting>, level: u8) -> bool {
    setting matches Some(Setting::I32Range { setting: range, value }) && range == (Range {
        start: 1,
        end: 5,
        step: 1,
    }) && value == clamp_int(level as int, 1, 5)
}

pub open spec fn preset_setting_is(setting: Option<Setting>) -> bool {
    setting matches Some(Setting::PresetEqualizerProfileSelect { equalizer, select, presets, value })
        && sample_equalizer_spec(equalizer) && select_is(
        select,
        seq!["SoundcoreSignature"@, "BassBooster"@],
        seq!["Soundcore Signature"@, "Bass Booster"@],
    ) && presets@.len() == 2 && presets@[0]@ == Seq::new(8, |i: int| 0i16) && presets@[1]@
        == Seq::new(8, |i: int| 30i16) && (value matches Some(v) && v@ == "SoundcoreSignature"@)
}

pub open spec fn equalizer_setting_is(setting: Option<Setting>) -> bool {
    setting matches Some(Setting::Equalizer { setting: equalizer, read_only, value })
        && sample_equalizer_spec(equalizer) && !read_only && value@ == seq![
        0i16,
        10i16,
        20i16,
        30i16,
        20i16,
        10i16,
        0i16,
        -10i16,
    ]
}

/// The simulated daily control `id`: the easy-chat wait time is a selection,
/// auto power-off an optional selection, the others are toggles that are on.
pub open spec fn daily_setting_is(id: SettingId, setting: Option<Setting>) -> bool {
    if id == SettingId::EasyChatWaitTime {
        setting matches Some(Setting::Select { setting: select, value }) && select_is(
            select,
            seq!["5s"@, "10s"@],
            seq!["5 seconds"@, "10 seconds"@],
        ) && value@ == "10s"@
    } else if id == SettingId::AutoPowerOff {
        setting matches Some(Setting::OptionalSelect { setting: select, value }) && select_is(
            select,
            seq!["30min"@, "60min"@],
            seq!["30 minutes"@, "60 minutes"@],
        ) && (value matches Some(v) && v@ == "30min"@)
    } else {
        setting == Some(Setting::Toggle { value: true })
    }
}

/// The simulated button action: play/pause, out of play/pause and voice
/// assistant, which may also be disabled.
pub open spec fn press_setting_is(setting: Option<Setting>, value: Seq<char>) -> bool {
    setting matches Some(Setting::OptionalSelect { setting: select, value: v }) && select_is(
        select,
        seq!["PlayPause"@, "VoiceAssistant"@],
        seq!["Play / Pause"@, "Voice Assistant"@],
    ) && (v matches Some(text) && text@ == value)
}

/// What the simulated device reports for `id`: the battery levels of the
/// model's shape, the ambient mode and its strengths when the model has them,
/// the equalizer, and the model's daily and button controls.
pub open spec fn debug_setting_spec(
    state: DebugState,
    model: DeviceModel,
    single_battery: bool,
    supports_manual_ambient_ranges: bool,
    id: SettingId,
    setting: Option<Setting>,
) -> bool {
    match id {
        SettingId::BatteryLevel => if single_battery {
            battery_setting_is(setting, state.battery_level)
        } else {
            setting is None
        },
        SettingId::BatteryLevelLeft => if !single_battery {
            battery_setting_is(setting, state.battery_left)
        } else {
            setting is None
        },
        SettingId::BatteryLevelRight => if !single_battery {
            battery_setting_is(setting, state.battery_right)
        } else {
            setting is None
        },
        SettingId::CaseBatteryLevel => if !single_battery {
            battery_setting_is(setting, state.battery_case)
        } else {
            setting is None
        },
        SettingId::AmbientSoundMode => if ambient_support_spec(model) {
            ambient_setting_is(setting, state.listening_mode)
        } else {
            setting is None
        },
        SettingId::ManualTransparency | SettingId::ManualNoiseCanceling => if ambient_support_spec(
            model,
        ) && supports_manual_ambient_ranges {
            strength_setting_is(setting, state.ambient_level)
        } else {
            setting is None
        },
        SettingId::PresetEqualizerProfile => preset_setting_is(setting),
        SettingId::VolumeAdjustments => equalizer_setting_is(setting),
        _ => if daily_support_spec(model).contains(id) {
            daily_setting_is(id, setting)
        } else if button_support_spec(model).contains(id) {
            press_setting_is(setting, "PlayPause"@)
        } else {
            setting is None
        },
    }
}

fn strings_of(items: &[&str]) -> (list: Vec<String>)
    ensures
        texts(list@) == items@.map_values(|s: &str| s@),
{
    let mut list: Vec<String> = Vec::new();
    let n = items.len();
    let mut i: usize = 0;
    while i < n
        invariant
            n == items@.len(),
            i <= n,
            list@.len() == i,
            texts(list@) == items@.take(i as int).map_values(|s: &str| s@),
        decreases n - i,
    {
        let item = String::from_str(items[i]);
        assert(item@ == items@[i as int]@);
        let ghost before = list@;
        list.push(item);
        assert(list@ == before.push(item));
        i = i + 1;
        assert forall|k: int| 0 <= k < i implies #[trigger] texts(list@)[k] == items@.take(
            i as int,
        ).map_values(|s: &str| s@)[k] by {
            if k < i - 1 {
                assert(list@[k] == before[k]);
                assert(texts(before)[k] == items@.take(i - 1).map_values(|s: &str| s@)[k]);
            }
        }
        assert(texts(list@) =~= items@.take(i as int).map_values(|s: &str| s@));
    }
    assert(items@.take(n as int) =~= items@);
    list
}

fn select_of(options: &[&str], labels: &[&str]) -> (select: Select)
    ensures
        texts(select.options@) == options@.map_values(|s: &str| s@),
        texts(select.localized_options@) == labels@.map_values(|s: &str| s@),
{
    Select { options: strings_of(options), localized_options: strings_of(labels) }
}

/// The equalizer every simulated device has.
pub fn sample_equalizer() -> (equalizer: Equalizer)
    ensures
        sample_equalizer_spec(equalizer),
{
    let bands = [100u16, 200, 400, 800, 1600, 3200, 6400, 12800];
    let mut band_hz: Vec<u16> = Vec::new();
    let mut i: usize = 0;
    while i < 8
        invariant
            i <= 8,
            bands@ == seq![100u16, 200u16, 400u16, 800u16, 1600u16, 3200u16, 6400u16, 12800u16],
            band_hz@ == bands@.take(i as int),
        decreases 8 - i,
    {
        band_hz.push(bands[i]);
        i = i + 1;
        assert(band_hz@ =~= bands@.take(i as int));
    }
    assert(bands@.take(8) =~= bands@);
    Equalizer { band_hz, fraction_digits: 1, min: -60, max: 60 }
}

/// A battery level as the device reports it.
pub fn battery_fraction(level: u8) -> (setting: Setting)
    ensures
        battery_setting_is(Some(setting), level),
{
    let mut value = decimal_text(level as u32);
    value.append("/100");
    let mut translated_value = decimal_text(level as u32);
    translated_value.append("%");
    Setting::Information { value, translated_value }
}

/// A simulated button action set to `value`.
pub fn press_action_select(value: &str) -> (setting: Setting)
    ensures
        press_setting_is(Some(setting), value@),
{
    let select = select_of(&["PlayPause", "VoiceAssistant"], &["Play / Pause", "Voice Assistant"]);
    assert(texts(select.options@) =~= seq!["PlayPause"@, "VoiceAssistant"@]);
    assert(texts(select.localized_options@) =~= seq!["Play / Pause"@, "Voice Assistant"@]);
    Setting::OptionalSelect { setting: select, value: Some(String::from_str(value)) }
}

/// The simulated daily control `id`.
pub fn daily_setting(id: SettingId) -> (setting: Setting)
    ensures
        daily_setting_is(id, Some(setting)),
{
    match id {
        SettingId::EasyChatWaitTime => {
            let select = select_of(&["5s", "10s"], &["5 seconds", "10 seconds"]);
            assert(texts(select.options@) =~= seq!["5s"@, "10s"@]);
            assert(texts(select.localized_options@) =~= seq!["5 seconds"@, "10 seconds"@]);
            Setting::Select { setting: select, value: String::from_str("10s") }
        },
        SettingId::AutoPowerOff => {
            let select = select_of(&["30min", "60min"], &["30 minutes", "60 minutes"]);
            assert(texts(select.options@) =~= seq!["30min"@, "60min"@]);
            assert(texts(select.localized_options@) =~= seq!["30 minutes"@, "60 minutes"@]);
            Setting::OptionalSelect { setting: select, value: Some(String::from_str("30min")) }
        },
        _ => Setting::Toggle { value: true },
    }
}

fn gains_of(value: i16) -> (gains: Vec<i16>)
    ensures
        gains@ == Seq::new(8, |i: int| value),
{
    let mut gains: Vec<i16> = Vec::new();
    let mut i: usize = 0;
    while i < 8
        invariant
            i <= 8,
            gains@ == Seq::new(i as nat, |j: int| value),
        decreases 8 - i,
    {
        gains.push(value);
        i = i + 1;
        assert(gains@ =~= Seq::new(i as nat, |j: int| value));
    }
    gains
}

fn contains_id(ids: &Vec<SettingId>, id: SettingId) -> (found: bool)
    ensures
        found == ids@.contains(id),
{
    let n = ids.len();
    let mut i: usize = 0;
    while i < n
        invariant
            n == ids@.len(),
            i <= n,
            forall|j: int| 0 <= j < i ==> ids@[j] != id,
        decreases n - i,
    {
        if ids[i] == id {
            assert(ids@[i as int] == id);
            return true;
        }
        i = i + 1;
    }
    false
}

/// What the simulated device reports for `id` (see `debug_setting_spec`).
pub fn debug_setting(
    state: &DebugState,
    model: DeviceModel,
    single_battery: bool,
    supports_manual_ambient_ranges: bool,
    id: SettingId,
) -> (setting: Option<Setting>)
    ensures
        debug_setting_spec(*state, model, single_battery, supports_manual_ambient_ranges, id, setting),
{
    let support = model_support(model);
    match id {
        SettingId::BatteryLevel => if single_battery {
            Some(battery_fraction(state.battery_level))
        } else {
            None
        },
        SettingId::BatteryLevelLeft => if !single_battery {
            Some(battery_fraction(state.battery_left))
        } else {
            None
        },
        SettingId::BatteryLevelRight => if !single_battery {
            Some(battery_fraction(state.battery_right))
        } else {
            None
        },
        SettingId::CaseBatteryLevel => if !single_battery {
            Some(battery_fraction(state.battery_case))
        } else {
            None
        },
        SettingId::AmbientSoundMode => if support.ambient_mode {
            let select = select_of(
                &["Normal", "Transparency", "NoiseCanceling"],
                &["Normal", "Transparency", "Noise Canceling"],
            );
            assert(texts(select.options@) =~= seq!["Normal"@, "Transparency"@, "NoiseCanceling"@]);
            assert(texts(select.localized_options@) =~= seq![
                "Normal"@,
                "Transparency"@,
                "Noise Canceling"@,
            ]);
            Some(
                Setting::Select {
                    setting: select,
                    value: String::from_str(listening_mode_value(state.listening_mode)),
                },
            )
        } else {
            None
        },
        SettingId::ManualTransparency | SettingId::ManualNoiseCanceling => if support.ambient_mode
            && supports_manual_ambient_ranges {
            let level = if state.ambient_level < 1 {
                1
            } else if state.ambient_level > 5 {
                5
            } else {
                state.ambient_level
            };
            Some(
                Setting::I32Range {
                    setting: Range { start: 1, end: 5, step: 1 },
                    value: level as i32,
                },
            )
        } else {
            None
        },
        SettingId::PresetEqualizerProfile => {
            let select = select_of(
                &["SoundcoreSignature", "BassBooster"],
                &["Soundcore Signature", "Bass Booster"],
            );
            assert(texts(select.options@) =~= seq!["SoundcoreSignature"@, "BassBooster"@]);
            assert(texts(select.localized_options@) =~= seq![
                "Soundcore Signature"@,
                "Bass Booster"@,
            ]);
            let mut presets: Vec<Vec<i16>> = Vec::new();
            presets.push(gains_of(0));
            presets.push(gains_of(30));
            Some(
                Setting::PresetEqualizerProfileSelect {
                    equalizer: sample_equalizer(),
                    select,
                    presets,
                    value: Some(String::from_str("SoundcoreSignature")),
                },
            )
        },
        SettingId::VolumeAdjustments => {
            let mut value: Vec<i16> = Vec::new();
            value.push(0);
            value.push(10);
            value.push(20);
            value.push(30);
            value.push(20);
            value.push(10);
            value.push(0);
            value.push(-10);
            assert(value@ =~= seq![0i16, 10i16, 20i16, 30i16, 20i16, 10i16, 0i16, -10i16]);
            Some(Setting::Equalizer { setting: sample_equalizer(), read_only: false, value })
        },
        _ => if contains_id(&support.daily_ids, id) {
            Some(daily_setting(id))
        } else if contains_id(&support.button_ids, id) {
            Some(press_action_select("PlayPause"))
        } else {
            None
        },
    }
}


/// A battery level reported as `<level>/100` reads back as that level, capped
/// at 100.
pub proof fn lemma_fraction_of_level(level: u8)
    ensures
        fraction_parts(fraction_text(level)) == Some((level as u16, 100u16)),
        fraction_defined(fraction_text(level)),
        fraction_percent_spec(fraction_text(level)) == Some(if level < 100 { level } else { 100u8 }),
{
    reveal_strlit("/100");
    let d = decimal(level as nat);
    let s = fraction_text(level);
    let k = d.len() as int;
    lemma_decimal_digits(level as nat);
    lemma_decimal_parses(level as u16);
    assert(s[k] == '/');
    assert forall|j: int| 0 <= j < k implies s[j] != '/' by {
        assert(s[j] == d[j]);
        assert(crate::text::is_digit(d[j]));
    }
    assert(first_slash_at(s, k));
    let c = choose|j: int| first_slash_at(s, j);
    if c < k {
        assert(s[c] != '/');
    }
    if k < c {
        assert(s[k] != '/');
    }
    assert(s.subrange(0, k) =~= d);
    let hundred = decimal(100);
    assert(decimal(1) == seq![crate::text::digit_char(1)]);
    assert(decimal(10) == decimal(1).push(crate::text::digit_char(0)));
    assert(hundred == decimal(10).push(crate::text::digit_char(0)));
    assert(s.subrange(k + 1, s.len() as int) =~= hundred);
    lemma_decimal_parses(100);
    assert(parse_u16_spec(s.subrange(k + 1, s.len() as int)) == Some(100u16));
    assert(percent_scaled(level as u16) == level * 100);
    assert((level * 100 + 50) / 100 == level) by (nonlinear_arith)
        requires
            level <= 255,
    ;
}

/// The strength the simulated device holds for both ambient ranges.
pub open spec fn simulated_strength(state: DebugState) -> int {
    clamp_int(state.ambient_level as int, 1, 5)
}

/// The debug window shows what it simulates: the picked battery levels
/// (capped at 100) in the model's battery shape, the picked listening mode on
/// models with ambient modes (else `Normal`), and, on models with manual
/// strengths, the slider level of the picked strength in that mode.
pub proof fn lemma_debug_snapshot_shows_state(
    state: DebugState,
    model: DeviceModel,
    single_battery: bool,
    supports_manual_ambient_ranges: bool,
    readings: SettingReadings,
)
    requires
        debug_readings(state, model, single_battery, supports_manual_ambient_ranges, readings),
    ensures
        snapshot_spec(readings).battery_left == (if single_battery {
            None
        } else {
            Some(if state.battery_left < 100 { state.battery_left } else { 100u8 })
        }),
        snapshot_spec(readings).battery_right == (if single_battery {
            None
        } else {
            Some(if state.battery_right < 100 { state.battery_right } else { 100u8 })
        }),
        snapshot_spec(readings).battery_case == (if single_battery {
            None
        } else {
            Some(if state.battery_case < 100 { state.battery_case } else { 100u8 })
        }),
        snapshot_spec(readings).listening_mode == (if ambient_support_spec(model) {
            state.listening_mode
        } else {
            ListeningMode::Normal
        }),
        snapshot_spec(readings).ambient_level == (if ambient_support_spec(model)
            && supports_manual_ambient_ranges {
            Some(
                (if state.listening_mode == ListeningMode::NoiseCanceling {
                    simulated_strength(state) + 5
                } else {
                    6 - simulated_strength(state)
                }) as u8,
            )
        } else {
            None
        }),
        snapshot_spec(readings).selected_preset == Some("SoundcoreSignature"@),
        snapshot_spec(readings).equalizer matches Some(e) && e.gains == seq![
            0i16,
            10i16,
            20i16,
            30i16,
            20i16,
            10i16,
            0i16,
            -10i16,
        ],
{
    lemma_fraction_of_level(state.battery_left);
    lemma_fraction_of_level(state.battery_right);
    lemma_fraction_of_level(state.battery_case);
    crate::domain::lemma_listening_mode_round_trip(state.listening_mode);
}

/// `readings` is what the simulated device reports for every setting a
/// snapshot reads.
pub open spec fn debug_readings(
    state: DebugState,
    model: DeviceModel,
    single_battery: bool,
    supports_manual_ambient_ranges: bool,
    readings: SettingReadings,
) -> bool {
    let ok = |id: SettingId, setting: Option<Setting>|
        debug_setting_spec(state, model, single_battery, supports_manual_ambient_ranges, id, setting);
    &&& ok(SettingId::AmbientSoundMode, readings.ambient_sound_mode)
    &&& ok(SettingId::PresetEqualizerProfile, readings.preset)
    &&& ok(SettingId::BatteryLevelLeft, readings.battery_left)
    &&& ok(SettingId::BatteryLevelRight, readings.battery_right)
    &&& ok(SettingId::CaseBatteryLevel, readings.battery_case)
    &&& ok(SettingId::ManualNoiseCanceling, readings.manual_noise_canceling)
    &&& ok(SettingId::ManualTransparency, readings.manual_transparency)
    &&& ok(SettingId::VolumeAdjustments, readings.volume_adjustments)
    &&& readings.daily.len() == daily_control_ids_spec().len()
    &&& forall|k: int|
        0 <= k < readings.daily.len() ==> debug_setting_spec(
            state,
            model,
            single_battery,
            supports_manual_ambient_ranges,
            daily_control_ids_spec()[k],
            #[trigger] readings.daily[k],
        )
    &&& readings.earbud.len() == earbud_control_ids_spec().len()
    &&& forall|k: int|
        0 <= k < readings.earbud.len() ==> debug_setting_spec(
            state,
            model,
            single_battery,
            supports_manual_ambient_ranges,
            earbud_control_ids_spec()[k],
            #[trigger] readings.earbud[k],
        )
}

/// The snapshot the debug window shows for the picked model and values: the
/// simulated settings run through `snapshot_from_settings`, with `label`
/// naming the controls.
pub fn build_snapshot<L>(
    state: &DebugState,
    model: DeviceModel,
    single_battery: bool,
    supports_manual_ambient_ranges: bool,
    label: L,
) -> (snapshot: DeviceSnapshot) where L: Fn(SettingId) -> String
    requires
        forall|id: SettingId| label.requires((id,)),
    ensures
        exists|readings: SettingReadings|
            #[trigger] debug_readings(
                *state,
                model,
                single_battery,
                supports_manual_ambient_ranges,
                readings,
            ) && labels_read(label, readings) && snapshot@ == snapshot_spec(readings),
{
    let lookup = |id: SettingId| -> (found: Option<Setting>)
        ensures
            debug_setting_spec(
                *state,
                model,
                single_battery,
                supports_manual_ambient_ranges,
                id,
                found,
            ),
        { debug_setting(state, model, single_battery, supports_manual_ambient_ranges, id) };
    proof {
        lemma_fraction_of_level(state.battery_left);
        lemma_fraction_of_level(state.battery_right);
        lemma_fraction_of_level(state.battery_case);
        assert forall|readings: SettingReadings| #[trigger]
            settings_read(lookup, readings) implies readings_defined(readings) by {
            assert(debug_setting_spec(
                *state,
                model,
                single_battery,
                supports_manual_ambient_ranges,
                SettingId::BatteryLevelLeft,
                readings.battery_left,
            ));
            assert(debug_setting_spec(
                *state,
                model,
                single_battery,
                supports_manual_ambient_ranges,
                SettingId::BatteryLevelRight,
                readings.battery_right,
            ));
            assert(debug_setting_spec(
                *state,
                model,
                single_battery,
                supports_manual_ambient_ranges,
                SettingId::CaseBatteryLevel,
                readings.battery_case,
            ));
            assert(debug_setting_spec(
                *state,
                model,
                single_battery,
                supports_manual_ambient_ranges,
                SettingId::ManualNoiseCanceling,
                readings.manual_noise_canceling,
            ));
            assert(debug_setting_spec(
                *state,
                model,
                single_battery,
                supports_manual_ambient_ranges,
                SettingId::ManualTransparency,
                readings.manual_transparency,
            ));
        }
    }
    let snapshot = snapshot_from_settings(lookup, label);
    proof {
        let readings = choose|readings: SettingReadings|
            #[trigger] settings_read(lookup, readings) && labels_read(label, readings) && snapshot@
                == snapshot_spec(readings);
        assert(debug_readings(
            *state,
            model,
            single_battery,
            supports_manual_ambient_ranges,
            readings,
        ));
    }
    snapshot
}

} // verus!
