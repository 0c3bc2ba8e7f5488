//! The daily and earbud controls list: what each row shows and the command a
//! click on it sends.

use vstd::prelude::*;

use crate::domain::{
    opt_text, options_view, ControlSetting, DeviceCommand, SelectOption, SelectOptionView,
    SettingId,
};
use crate::ui::widgets::{label_of_value, option_position};

verus! {

/// The label of the option a selection control is set to, or `Disabled` when
/// it is set to nothing or to a value none of its options has.
pub open spec fn selected_label_spec(
    value: Option<Seq<char>>,
    options: Seq<SelectOptionView>,
) -> Seq<char> {
    match value {
        Some(v) => match label_of_value(options, v) {
            Some(label) => label,
            None => "Disabled"@,
        },
        None => "Disabled"@,
    }
}

/// The text shown on a selection control's button.
pub fn selected_label(value: &Option<String>, options: &[SelectOption]) -> (label: String)
    ensures
        label@ == selected_label_spec(opt_text(*value), options_view(options@)),
{
    match value {
        Some(selected) => match option_position(options, selected.as_str()) {
            Some(i) => {
                assert(options_view(options@)[i as int] == options@[i as int]@);
                options[i].label.clone()
            },
            None => String::from_str("Disabled"),
        },
        None => String::from_str("Disabled"),
    }
}

/// The text on a toggle's button.
pub fn toggle_text(on: bool) -> (text: &'static str)
    ensures
        text@ == (if on { "On"@ } else { "Off"@ }),
{
    if on {
        "On"
    } else {
        "Off"
    }
}

/// Clicking a toggle that shows `current` asks for the opposite.
pub fn toggle_command(id: SettingId, current: bool) -> (command: DeviceCommand)
    ensures
        command == DeviceCommand::SetToggle(id, !current),
{
    DeviceCommand::SetToggle(id, !current)
}

/// Picking `Disabled` in an optional selection clears it.
pub fn disable_command(control: &ControlSetting) -> (command: DeviceCommand)
    ensures
        command == (DeviceCommand::SetSelect { id: control.id, value: None, optional: true }),
{
    DeviceCommand::SetSelect { id: control.id, value: None, optional: true }
}

/// Picking the option with value `value` in a selection control.
pub fn select_command(id: SettingId, value: &String, optional: bool) -> (command: DeviceCommand)
    ensures
        command matches DeviceCommand::SetSelect { id: i, value: Some(v), optional: o } && i == id
            && v@ == value@ && o == optional,
{
    DeviceCommand::SetSelect { id, value: Some(value.clone()), optional }
}

} // verus!
