//! Small texts shared by several screens.

use vstd::prelude::*;

use crate::domain::{options_view, SelectOption, SelectOptionView};
use crate::text::{decimal, decimal_text, text_eq};

verus! {

/// Option `i` is the first option whose value is `value`.
pub open spec fn first_with_value(options: Seq<SelectOptionView>, value: Seq<char>, i: int) -> bool {
    &&& 0 <= i < options.len()
    &&& options[i].value == value
    &&& forall|j: int| 0 <= j < i ==> #[trigger] options[j].value != value
}

/// The label of the first option whose value is `value`, if there is one.
pub open spec fn label_of_value(options: Seq<SelectOptionView>, value: Seq<char>) -> Option<
    Seq<char>,
> {
    if exists|i: int| first_with_value(options, value, i) {
        Some(options[choose|i: int| first_with_value(options, value, i)].label)
    } else {
        None
    }
}

proof fn lemma_first_with_value_unique(options: Seq<SelectOptionView>, value: Seq<char>, a: int, b: int)
    requires
        first_with_value(options, value, a),
        first_with_value(options, value, b),
    ensures
        a == b,
{
    if a < b {
        assert(options[a].value != value);
    }
    if b < a {
        assert(options[b].value != value);
    }
}

/// The position of the first option whose value is `value`.
pub fn option_position(options: &[SelectOption], value: &str) -> (found: Option<usize>)
    ensures
        match found {
            Some(i) => first_with_value(options_view(options@), value@, i as int)
                && label_of_value(options_view(options@), value@) == Some(
                options_view(options@)[i as int].label,
            ),
            None => label_of_value(options_view(options@), value@) is None,
        },
{
    let ghost view = options_view(options@);
    let n = options.len();
    let mut i: usize = 0;
    while i < n
        invariant
            n == options@.len(),
            view == options_view(options@),
            i <= n,
            forall|j: int| 0 <= j < i ==> #[trigger] view[j].value != value@,
        decreases n - i,
    {
        assert(view[i as int] == options@[i as int]@);
        if text_eq(options[i].value.as_str(), value) {
            assert(first_with_value(view, value@, i as int));
            proof {
                let k = choose|k: int| first_with_value(view, value@, k);
                lemma_first_with_value_unique(view, value@, k, i as int);
            }
            return Some(i);
        }
        i = i + 1;
    }
    None
}

/// The label of the preset `value`: the label of its option, or `value`
/// itself when no option has it.
pub open spec fn preset_label_spec(options: Seq<SelectOptionView>, value: Seq<char>) -> Seq<char> {
    match label_of_value(options, value) {
        Some(label) => label,
        None => value,
    }
}

/// The label shown for the equalizer preset `value`.
pub fn preset_label(options: &[SelectOption], value: &str) -> (label: String)
    ensures
        label@ == preset_label_spec(options_view(options@), value@),
{
    match option_position(options, value) {
        Some(i) => {
            assert(options_view(options@)[i as int] == options@[i as int]@);
            options[i].label.clone()
        },
        None => String::from_str(value),
    }
}

/// A band frequency: whole kilohertz as `<n>k` from 1000 Hz up, plain hertz
/// below.
pub open spec fn frequency_text(frequency: u16) -> Seq<char> {
    if frequency >= 1000 {
        decimal((frequency / 1000) as nat) + "k"@
    } else {
        decimal(frequency as nat)
    }
}

/// The label under an equalizer band.
pub fn format_frequency(frequency: u16) -> (text: String)
    ensures
        text@ == frequency_text(frequency),
{
    if frequency >= 1000 {
        let mut text = decimal_text((frequency / 1000) as u32);
        text.append("k");
        text
    } else {
        decimal_text(frequency as u32)
    }
}

} // verus!
