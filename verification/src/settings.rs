//! The settings forms: for each monitor, the rows of text that a user edits
//! and from which the monitor's configuration is made anew.
//!
//! The rows of a form are kept in an `indexmap::IndexMap`, keyed by the name
//! of the setting, in the order in which they are shown.

use crate::configuration::cpu::CpuConfiguration;
use crate::configuration::disk::DiskConfiguration;
use crate::configuration::general::GeneralConfiguration;
use crate::configuration::interval::duration_as_millis;
use crate::configuration::memory::MemoryConfiguration;
use crate::configuration::network::NetworkConfiguration;
use crate::configuration::validation::{
    valid_boolean, valid_interval, valid_label_text, valid_max_samples, ConfigurationValidation,
};
use crate::text::{all_digits, decimal, digits_value, is_digit, string_of, without_plus};
use indexmap::IndexMap;
use std::time::Duration;
use vstd::prelude::*;

verus! {

/// The key of the row that holds the label's text.
pub const LABEL_TEXT_SETTING_KEY: &'static str = "settings-label-text";

/// The key of the row that holds the label's colour.
pub const LABEL_COLOUR_SETTING_KEY: &'static str = "settings-label-colour";

/// The key of the row that hides the indicator.
pub const HIDE_INDICATOR_SETTING_KEY: &'static str = "settings-hide-indicator";

/// The key of the row that holds the polling interval.
pub const UPDATE_INTERVAL_SETTING_KEY: &'static str = "settings-update-interval";

/// The key of the row that holds the window size.
pub const MAX_SAMPLES_SETTING_KEY: &'static str = "settings-max-samples";

/// The key of the row that fixes the width of the indicators.
pub const FIX_INDICATOR_SIZE_SETTING_KEY: &'static str = "settings-fix-indicator-size";

/// The key of the row that chooses binary units.
pub const USE_IEC_UNITS_SETTING_KEY: &'static str = "settings-use-iec-units";

/// The windows in which settings are edited.
#[derive(Debug, Clone, Copy, PartialEq, Eq, Structural)]
pub enum SettingsWindow {
    Main,
    General,
    Cpu,
    Memory,
    Network,
    Disk,
}

/// How a row of a form is edited.
#[derive(Debug, Clone, Copy, PartialEq, Eq, Structural)]
pub enum SettingsFormInputType {
    String,
    CheckBox,
    ColourPicker,
}

/// The rule that what is typed into a row has to meet.
#[derive(Debug, Clone, Copy, PartialEq, Eq, Structural)]
pub enum SettingsValidator {
    LabelText,
    Boolean,
    Interval,
    MaxSamples,
}

impl SettingsValidator {
    /// Whether `input` meets the rule.
    pub open spec fn accepts(self, input: Seq<char>) -> bool {
        match self {
            SettingsValidator::LabelText => valid_label_text(input),
            SettingsValidator::Boolean => valid_boolean(input) is Some,
            SettingsValidator::Interval => valid_interval(input) is Some,
            SettingsValidator::MaxSamples => valid_max_samples(input) is Some,
        }
    }

    /// The message for an input that does not meet the rule, or its key.
    pub open spec fn message(self) -> Seq<char> {
        match self {
            SettingsValidator::LabelText => "settings-label-text-error"@,
            SettingsValidator::Boolean => "Not valid boolean"@,
            SettingsValidator::Interval => "settings-interval-error"@,
            SettingsValidator::MaxSamples => "settings-max-samples-error"@,
        }
    }

    /// Holds `input` to the rule; the error is the message to show, or its
    /// key.
    pub fn validate(&self, input: &str) -> (result: Result<(), String>)
        ensures
            result is Ok <==> self.accepts(input@),
            result matches Err(message) ==> message@ == self.message(),
    {
        match self {
            SettingsValidator::LabelText => ConfigurationValidation::is_valid_label_text(input),
            SettingsValidator::Boolean => ConfigurationValidation::is_valid_boolean(input),
            SettingsValidator::Interval => ConfigurationValidation::is_valid_interval(input),
            SettingsValidator::MaxSamples => ConfigurationValidation::is_valid_max_samples(input),
        }
    }
}

/// One row of a form.
#[derive(Debug, Clone)]
pub struct SettingsFormItem {
    /// The key of the text that names the row.
    pub label: String,
    /// What the row holds, as text.
    pub value: String,
    /// How the row is edited.
    pub input_type: SettingsFormInputType,
    /// The rule that the value has to meet, if any.
    pub validator: Option<SettingsValidator>,
}

/// One row of a form, as a mathematical value.
pub struct FormRow {
    pub label: Seq<char>,
    pub value: Seq<char>,
    pub input_type: SettingsFormInputType,
    pub validator: Option<SettingsValidator>,
}

impl View for SettingsFormItem {
    type V = FormRow;

    open spec fn view(&self) -> FormRow {
        FormRow {
            label: self.label@,
            value: self.value@,
            input_type: self.input_type,
            validator: self.validator,
        }
    }
}

/// `indexmap::IndexMap`, a hash map that keeps its entries in the order in
/// which their keys were first inserted. Nothing is known of what a map
/// holds but what `form_entries` names.
#[verifier::external_type_specification]
#[verifier::external_body]
#[verifier::reject_recursive_types(K)]
#[verifier::reject_recursive_types(V)]
#[verifier::reject_recursive_types(S)]
pub struct ExIndexMap<K, V, S>(IndexMap<K, V, S>);

/// The rows that a map of rows holds, each with its key, in the map's
/// order.
pub uninterp spec fn form_entries(values: IndexMap<&'static str, SettingsFormItem>) -> Seq<
    (Seq<char>, SettingsFormItem),
>;

/// The position of the first entry with the given key.
pub open spec fn position_of(entries: Seq<(Seq<char>, SettingsFormItem)>, key: Seq<char>)
    -> Option<int>
    decreases entries.len(),
{
    if entries.len() == 0 {
        None
    } else {
        match position_of(entries.drop_last(), key) {
            Some(position) => Some(position),
            None => if entries.last().0 == key {
                Some(entries.len() - 1)
            } else {
                None
            },
        }
    }
}

/// The position that is found for a key is that of an entry with the key,
/// and no entry before it has the key.
pub proof fn lemma_position_of(entries: Seq<(Seq<char>, SettingsFormItem)>, key: Seq<char>)
    ensures
        match position_of(entries, key) {
            Some(position) => {
                &&& 0 <= position < entries.len()
                &&& entries[position].0 == key
                &&& forall|i: int| 0 <= i < position ==> entries[i].0 != key
            },
            None => forall|i: int| 0 <= i < entries.len() ==> entries[i].0 != key,
        },
    decreases entries.len(),
{
    if entries.len() > 0 {
        let shorter = entries.drop_last();
        lemma_position_of(shorter, key);
        assert forall|i: int| 0 <= i < shorter.len() implies shorter[i] == entries[i] by {}
        match position_of(shorter, key) {
            Some(position) => {
                assert(entries[position] == shorter[position]);
                assert forall|i: int| 0 <= i < position implies entries[i].0 != key by {
                    assert(shorter[i].0 != key);
                }
            },
            None => {
                assert forall|i: int| 0 <= i < shorter.len() implies entries[i].0 != key by {
                    assert(shorter[i].0 != key);
                }
            },
        }
    }
}

/// The row that is stored under the given key.
pub open spec fn lookup(entries: Seq<(Seq<char>, SettingsFormItem)>, key: Seq<char>) -> Option<
    SettingsFormItem,
> {
    match position_of(entries, key) {
        Some(position) => Some(entries[position].1),
        None => None,
    }
}

/// The entries after a row has been stored under a key: in the place of
/// the row that was stored under that key, or last if there was none.
pub open spec fn inserted(
    entries: Seq<(Seq<char>, SettingsFormItem)>,
    key: Seq<char>,
    item: SettingsFormItem,
) -> Seq<(Seq<char>, SettingsFormItem)> {
    match position_of(entries, key) {
        Some(position) => entries.update(position, (key, item)),
        None => entries.push((key, item)),
    }
}

/// Makes an empty map of rows with `IndexMap::new`.
#[verifier::external_body]
pub(crate) fn form_rows_new() -> (values: IndexMap<&'static str, SettingsFormItem>)
    ensures
        form_entries(values) == Seq::<(Seq<char>, SettingsFormItem)>::empty(),
{
    IndexMap::new()
}

/// Stores a row under a key with `IndexMap::insert`: a row that was stored
/// under an equal key is replaced where it stands, and a row under a new key
/// comes last.
#[verifier::external_body]
pub(crate) fn form_rows_insert(
    values: &mut IndexMap<&'static str, SettingsFormItem>,
    key: &'static str,
    item: SettingsFormItem,
)
    ensures
        form_entries(*final(values)) == inserted(form_entries(*old(values)), key@, item),
{
    values.insert(key, item);
}

/// Looks a row up with `IndexMap::get`, which yields the row stored under an
/// equal key, if there is one.
#[verifier::external_body]
pub(crate) fn form_rows_get<'a>(
    values: &'a IndexMap<&'static str, SettingsFormItem>,
    key: &str,
) -> (item: Option<&'a SettingsFormItem>)
    ensures
        match item {
            Some(found) => lookup(form_entries(*values), key@) == Some(*found),
            None => lookup(form_entries(*values), key@) is None,
        },
{
    values.get(key)
}

/// A form of settings.
pub struct SettingsForm {
    /// The window in which the form is shown.
    pub settings_window_id: SettingsWindow,
    /// The key of the form's title.
    pub title: String,
    /// The rows of the form, by the key of their setting.
    pub values: IndexMap<&'static str, SettingsFormItem>,
}

impl SettingsForm {
    /// The rows of the form, each with its key, in the order in which they
    /// are shown.
    pub open spec fn entries(&self) -> Seq<(Seq<char>, SettingsFormItem)> {
        form_entries(self.values)
    }

    /// The text of the row with the given key.
    pub open spec fn value_of(&self, key: Seq<char>) -> Option<Seq<char>> {
        match lookup(self.entries(), key) {
            Some(item) => Some(item.value@),
            None => None,
        }
    }

    /// The text of the row with the given key, if the form has that row.
    pub fn value(&self, key: &str) -> (text: Option<String>)
        ensures
            match text {
                Some(found) => self.value_of(key@) == Some(found@),
                None => self.value_of(key@) is None,
            },
    {
        match form_rows_get(&self.values, key) {
            Some(item) => Some(item.value.clone()),
            None => None,
        }
    }

    /// Puts `value` into the row with the given key and leaves every other
    /// row and the order of the rows as they are. A form without that row is
    /// left as it is, and `false` is returned.
    pub fn set_value(&mut self, key: &'static str, value: String) -> (found: bool)
        ensures
            final(self).settings_window_id == old(self).settings_window_id,
            final(self).title == old(self).title,
            found == (position_of(old(self).entries(), key@) is Some),
            match position_of(old(self).entries(), key@) {
                Some(position) => {
                    &&& final(self).entries().len() == old(self).entries().len()
                    &&& forall|i: int|
                        0 <= i < old(self).entries().len() && i != position
                            ==> final(self).entries()[i] == old(self).entries()[i]
                    &&& final(self).entries()[position].0 == key@
                    &&& final(self).entries()[position].1@ == (FormRow {
                        value: value@,
                        ..old(self).entries()[position].1@
                    })
                },
                None => final(self).entries() == old(self).entries(),
            },
    {
        let changed = match form_rows_get(&self.values, key) {
            Some(item) => Some(
                SettingsFormItem {
                    label: item.label.clone(),
                    value,
                    input_type: item.input_type,
                    validator: item.validator,
                },
            ),
            None => None,
        };
        proof {
            lemma_position_of(self.entries(), key@);
        }
        match changed {
            Some(item) => {
                form_rows_insert(&mut self.values, key, item);
                true
            },
            None => false,
        }
    }
}

/// The text of a truth value.
pub open spec fn boolean_text(value: bool) -> Seq<char> {
    if value {
        seq!['t', 'r', 'u', 'e']
    } else {
        seq!['f', 'a', 'l', 's', 'e']
    }
}

/// The decimal digits of a natural number, without leading zeros.
pub open spec fn decimal_text(n: nat) -> Seq<char>
    decreases n,
{
    if n < 10 {
        seq![((n + 0x30) as u8) as char]
    } else {
        decimal_text(n / 10).push((((n % 10) + 0x30) as u8) as char)
    }
}

/// What is written for a number reads back as that number: the text has
/// one digit at least, digits only, and denotes the number in decimal.
pub proof fn law_decimal_round_trip(n: nat)
    ensures
        decimal_text(n).len() > 0,
        all_digits(decimal_text(n)),
        digits_value(decimal_text(n)) == n,
        decimal(decimal_text(n)) == Some(n),
    decreases n,
{
    let text = decimal_text(n);
    if n < 10 {
        assert(text[0] as u32 == n + 0x30);
        assert(text.drop_last() =~= Seq::<char>::empty());
        assert(digits_value(text.drop_last()) == 0);
    } else {
        law_decimal_round_trip(n / 10);
        let shorter = decimal_text(n / 10);
        assert(text.drop_last() =~= shorter);
        assert(text.last() as u32 == n % 10 + 0x30);
        assert forall|i: int| 0 <= i < text.len() implies is_digit(#[trigger] text[i]) by {
            if i < shorter.len() {
                assert(text[i] == shorter[i]);
            }
        }
        assert(text[0] == shorter[0]);
    }
    assert(is_digit(text[0]));
    assert(without_plus(text) == text);
}

/// The text of a truth value.
pub fn boolean_string(value: bool) -> (text: String)
    ensures
        text@ == boolean_text(value),
{
    if value {
        proof {
            reveal_strlit("true");
        }
        let text = "true".to_string();
        assert(text@ =~= boolean_text(true));
        text
    } else {
        proof {
            reveal_strlit("false");
        }
        let text = "false".to_string();
        assert(text@ =~= boolean_text(false));
        text
    }
}

/// The decimal digits of `n`, without leading zeros.
pub fn decimal_string(n: u128) -> (text: String)
    ensures
        text@ == decimal_text(n as nat),
{
    let mut digits: Vec<char> = Vec::new();
    let mut rest: u128 = n;
    // The digits come out lowest first.
    while rest >= 10
        invariant
            decimal_text(n as nat) == decimal_text(rest as nat) + digits@.reverse(),
        decreases rest,
    {
        let digit: u8 = (rest % 10) as u8 + 0x30;
        let ghost before = digits@;
        digits.push(digit as char);
        proof {
            assert(digits@.reverse() =~= seq![digit as char] + before.reverse());
            assert(decimal_text(rest as nat) == decimal_text((rest / 10) as nat).push(
                digit as char,
            ));
            assert(decimal_text((rest / 10) as nat).push(digit as char) + before.reverse()
                =~= decimal_text((rest / 10) as nat) + digits@.reverse());
        }
        rest = rest / 10;
    }
    let digit: u8 = rest as u8 + 0x30;
    let ghost before = digits@;
    digits.push(digit as char);
    proof {
        assert(digits@.reverse() =~= seq![digit as char] + before.reverse());
        assert(decimal_text(rest as nat) =~= seq![digit as char]);
    }
    let mut ordered: Vec<char> = Vec::new();
    let mut i: usize = digits.len();
    while i > 0
        invariant
            i <= digits@.len(),
            ordered@ == digits@.reverse().take(digits@.len() - i),
        decreases i,
    {
        i = i - 1;
        ordered.push(digits[i]);
        assert(ordered@ =~= digits@.reverse().take(digits@.len() - i));
    }
    assert(ordered@ =~= digits@.reverse());
    string_of(&ordered)
}

/// The text of an optional text: the text itself, or nothing.
pub fn text_or_empty(text: &Option<String>) -> (result: String)
    ensures
        result@ == match *text {
            Some(held) => held@,
            None => Seq::empty(),
        },
{
    match text {
        Some(held) => held.clone(),
        None => String::new(),
    }
}

/// The rows that the settings of a monitor are edited in, in the order in
/// which they are shown.
pub open spec fn shared_rows(
    hide_indicator: bool,
    update_interval: Seq<char>,
    max_samples: usize,
    label_colour: Seq<char>,
    label_text: Seq<char>,
) -> Seq<(Seq<char>, FormRow)> {
    seq![
        (
            LABEL_TEXT_SETTING_KEY@,
            FormRow {
                label: "settings-label-text"@,
                value: label_text,
                input_type: SettingsFormInputType::String,
                validator: Some(SettingsValidator::LabelText),
            },
        ),
        (
            LABEL_COLOUR_SETTING_KEY@,
            FormRow {
                label: "settings-label-colour"@,
                value: label_colour,
                input_type: SettingsFormInputType::ColourPicker,
                validator: None,
            },
        ),
        (
            HIDE_INDICATOR_SETTING_KEY@,
            FormRow {
                label: "settings-hide-indicator"@,
                value: boolean_text(hide_indicator),
                input_type: SettingsFormInputType::CheckBox,
                validator: Some(SettingsValidator::Boolean),
            },
        ),
        (
            UPDATE_INTERVAL_SETTING_KEY@,
            FormRow {
                label: "settings-update-interval"@,
                value: update_interval,
                input_type: SettingsFormInputType::String,
                validator: Some(SettingsValidator::Interval),
            },
        ),
        (
            MAX_SAMPLES_SETTING_KEY@,
            FormRow {
                label: "settings-max-samples"@,
                value: decimal_text(max_samples as nat),
                input_type: SettingsFormInputType::String,
                validator: Some(SettingsValidator::MaxSamples),
            },
        ),
    ]
}

/// The keys and the views of the rows of a sequence of entries.
pub open spec fn rows_of(entries: Seq<(Seq<char>, SettingsFormItem)>) -> Seq<(Seq<char>, FormRow)> {
    entries.map_values(|entry: (Seq<char>, SettingsFormItem)| (entry.0, entry.1@))
}


/// Whether `text` shows a polling interval: for an interval of a whole
/// number of milliseconds, the text is that number in decimal.
pub open spec fn shows_interval(text: Seq<char>, interval: Duration) -> bool {
    forall|made_of: u64|
        interval == #[trigger] crate::configuration::interval::millis(made_of) ==> text
            == decimal_text(made_of as nat)
}

/// The text that an optional text holds: its own, or none.
pub open spec fn text_of(text: Option<String>) -> Seq<char> {
    match text {
        Some(held) => held@,
        None => Seq::empty(),
    }
}

/// Whether `entries` are the rows that the given settings of a monitor are
/// edited in.
pub open spec fn is_shared_form(
    entries: Seq<(Seq<char>, SettingsFormItem)>,
    hide_indicator: bool,
    update_interval: Duration,
    max_samples: usize,
    label_colour: Seq<char>,
    label_text: Seq<char>,
) -> bool {
    exists|interval_text: Seq<char>|
        {
            &&& rows_of(entries) == shared_rows(
                hide_indicator,
                interval_text,
                max_samples,
                label_colour,
                label_text,
            )
            &&& #[trigger] shows_interval(interval_text, update_interval)
        }
}

/// The rows that the settings of the whole panel are edited in.
pub open spec fn general_rows(fix_indicator_size: bool, use_iec_units: bool) -> Seq<
    (Seq<char>, FormRow),
> {
    seq![
        (
            FIX_INDICATOR_SIZE_SETTING_KEY@,
            FormRow {
                label: "settings-fix-indicator-size"@,
                value: boolean_text(fix_indicator_size),
                input_type: SettingsFormInputType::CheckBox,
                validator: Some(SettingsValidator::Boolean),
            },
        ),
        (
            USE_IEC_UNITS_SETTING_KEY@,
            FormRow {
                label: "settings-use-iec-units"@,
                value: boolean_text(use_iec_units),
                input_type: SettingsFormInputType::CheckBox,
                validator: Some(SettingsValidator::Boolean),
            },
        ),
    ]
}

/// A copy of an optional text.
pub fn copy_of(text: &Option<String>) -> (copy: Option<String>)
    ensures
        text_of(copy) == text_of(*text),
        copy is Some == text is Some,
{
    match text {
        Some(held) => Some(held.clone()),
        None => None,
    }
}

/// Builds the rows that the settings of every monitor share.
pub fn build_shared_settings(
    hide_indicator: bool,
    update_interval: Duration,
    max_samples: usize,
    label_colour: Option<String>,
    label_text: Option<String>,
) -> (values: IndexMap<&'static str, SettingsFormItem>)
    ensures
        is_shared_form(
            form_entries(values),
            hide_indicator,
            update_interval,
            max_samples,
            text_of(label_colour),
            text_of(label_text),
        ),
{
    let interval = decimal_string(duration_as_millis(&update_interval));
    let ghost interval_text = interval@;
    let text_row = SettingsFormItem {
        label: "settings-label-text".to_string(),
        value: text_or_empty(&label_text),
        input_type: SettingsFormInputType::String,
        validator: Some(SettingsValidator::LabelText),
    };
    let colour_row = SettingsFormItem {
        label: "settings-label-colour".to_string(),
        value: text_or_empty(&label_colour),
        input_type: SettingsFormInputType::ColourPicker,
        validator: None,
    };
    let hide_row = SettingsFormItem {
        label: "settings-hide-indicator".to_string(),
        value: boolean_string(hide_indicator),
        input_type: SettingsFormInputType::CheckBox,
        validator: Some(SettingsValidator::Boolean),
    };
    let interval_row = SettingsFormItem {
        label: "settings-update-interval".to_string(),
        value: interval,
        input_type: SettingsFormInputType::String,
        validator: Some(SettingsValidator::Interval),
    };
    let samples_row = SettingsFormItem {
        label: "settings-max-samples".to_string(),
        value: decimal_string(max_samples as u128),
        input_type: SettingsFormInputType::String,
        validator: Some(SettingsValidator::MaxSamples),
    };
    proof {
        reveal_strlit("settings-label-text");
        reveal_strlit("settings-label-colour");
        reveal_strlit("settings-hide-indicator");
        reveal_strlit("settings-update-interval");
        reveal_strlit("settings-max-samples");
        // The keys differ from one another: no two have the same length.
        assert(LABEL_TEXT_SETTING_KEY@.len() == 19);
        assert(LABEL_COLOUR_SETTING_KEY@.len() == 21);
        assert(HIDE_INDICATOR_SETTING_KEY@.len() == 23);
        assert(UPDATE_INTERVAL_SETTING_KEY@.len() == 24);
        assert(MAX_SAMPLES_SETTING_KEY@.len() == 20);
    }
    let mut values = form_rows_new();
    form_rows_insert(&mut values, LABEL_TEXT_SETTING_KEY, text_row);
    let ghost one = form_entries(values);
    proof {
        assert(one =~= seq![(LABEL_TEXT_SETTING_KEY@, text_row)]);
        lemma_position_of(one, LABEL_COLOUR_SETTING_KEY@);
    }
    form_rows_insert(&mut values, LABEL_COLOUR_SETTING_KEY, colour_row);
    let ghost two = form_entries(values);
    proof {
        assert(two =~= one.push((LABEL_COLOUR_SETTING_KEY@, colour_row)));
        lemma_position_of(two, HIDE_INDICATOR_SETTING_KEY@);
    }
    form_rows_insert(&mut values, HIDE_INDICATOR_SETTING_KEY, hide_row);
    let ghost three = form_entries(values);
    proof {
        assert(three =~= two.push((HIDE_INDICATOR_SETTING_KEY@, hide_row)));
        lemma_position_of(three, UPDATE_INTERVAL_SETTING_KEY@);
    }
    form_rows_insert(&mut values, UPDATE_INTERVAL_SETTING_KEY, interval_row);
    let ghost four = form_entries(values);
    proof {
        assert(four =~= three.push((UPDATE_INTERVAL_SETTING_KEY@, interval_row)));
        lemma_position_of(four, MAX_SAMPLES_SETTING_KEY@);
    }
    form_rows_insert(&mut values, MAX_SAMPLES_SETTING_KEY, samples_row);
    proof {
        let five = form_entries(values);
        assert(five =~= four.push((MAX_SAMPLES_SETTING_KEY@, samples_row)));
        assert(shows_interval(interval_text, update_interval));
        assert(rows_of(five) =~= shared_rows(
            hide_indicator,
            interval_text,
            max_samples,
            text_of(label_colour),
            text_of(label_text),
        ));
    }
    values
}


impl SettingsForm {
    /// The form in which the settings of the CPU monitor are edited.
    pub fn from_cpu(config: &CpuConfiguration) -> (form: SettingsForm)
        ensures
            form.settings_window_id == SettingsWindow::Cpu,
            form.title@ == "settings-cpu-title"@,
            is_shared_form(
                form.entries(),
                config.hide_indicator,
                config.update_interval,
                config.max_samples,
                text_of(config.label_colour),
                text_of(config.label_text),
            ),
    {
        let values = build_shared_settings(
            config.hide_indicator,
            config.update_interval,
            config.max_samples,
            copy_of(&config.label_colour),
            copy_of(&config.label_text),
        );
        SettingsForm {
            settings_window_id: SettingsWindow::Cpu,
            title: "settings-cpu-title".to_string(),
            values,
        }
    }

    /// The form in which the settings of the memory monitor are edited.
    pub fn from_memory(config: &MemoryConfiguration) -> (form: SettingsForm)
        ensures
            form.settings_window_id == SettingsWindow::Memory,
            form.title@ == "settings-memory-title"@,
            is_shared_form(
                form.entries(),
                config.hide_indicator,
                config.update_interval,
                config.max_samples,
                text_of(config.label_colour),
                text_of(config.label_text),
            ),
    {
        let values = build_shared_settings(
            config.hide_indicator,
            config.update_interval,
            config.max_samples,
            copy_of(&config.label_colour),
            copy_of(&config.label_text),
        );
        SettingsForm {
            settings_window_id: SettingsWindow::Memory,
            title: "settings-memory-title".to_string(),
            values,
        }
    }

    /// The form in which the settings of the network monitor are edited.
    pub fn from_network(config: &NetworkConfiguration) -> (form: SettingsForm)
        ensures
            form.settings_window_id == SettingsWindow::Network,
            form.title@ == "settings-network-title"@,
            is_shared_form(
                form.entries(),
                config.hide_indicator,
                config.update_interval,
                config.max_samples,
                text_of(config.label_colour),
                text_of(config.label_text),
            ),
    {
        let values = build_shared_settings(
            config.hide_indicator,
            config.update_interval,
            config.max_samples,
            copy_of(&config.label_colour),
            copy_of(&config.label_text),
        );
        SettingsForm {
            settings_window_id: SettingsWindow::Network,
            title: "settings-network-title".to_string(),
            values,
        }
    }

    /// The form in which the settings of the disk monitor are edited. The
    /// disk monitor has no label of its own, so the row for it is empty.
    pub fn from_disk(config: &DiskConfiguration) -> (form: SettingsForm)
        ensures
            form.settings_window_id == SettingsWindow::Disk,
            form.title@ == "settings-disk-title"@,
            is_shared_form(
                form.entries(),
                config.hide_indicator,
                config.update_interval,
                config.max_samples,
                text_of(config.label_colour),
                Seq::empty(),
            ),
    {
        let values = build_shared_settings(
            config.hide_indicator,
            config.update_interval,
            config.max_samples,
            copy_of(&config.label_colour),
            None,
        );
        SettingsForm {
            settings_window_id: SettingsWindow::Disk,
            title: "settings-disk-title".to_string(),
            values,
        }
    }

    /// The form in which the settings of the whole panel are edited.
    pub fn from_general(config: &GeneralConfiguration) -> (form: SettingsForm)
        ensures
            form.settings_window_id == SettingsWindow::General,
            form.title@ == "settings-general-title"@,
            rows_of(form.entries()) == general_rows(
                config.fix_indicator_size,
                config.use_iec_units,
            ),
    {
        let size_row = SettingsFormItem {
            label: "settings-fix-indicator-size".to_string(),
            value: boolean_string(config.fix_indicator_size),
            input_type: SettingsFormInputType::CheckBox,
            validator: Some(SettingsValidator::Boolean),
        };
        let units_row = SettingsFormItem {
            label: "settings-use-iec-units".to_string(),
            value: boolean_string(config.use_iec_units),
            input_type: SettingsFormInputType::CheckBox,
            validator: Some(SettingsValidator::Boolean),
        };
        proof {
            reveal_strlit("settings-fix-indicator-size");
            reveal_strlit("settings-use-iec-units");
            assert(FIX_INDICATOR_SIZE_SETTING_KEY@.len() == 27);
            assert(USE_IEC_UNITS_SETTING_KEY@.len() == 22);
        }
        let mut values = form_rows_new();
        form_rows_insert(&mut values, FIX_INDICATOR_SIZE_SETTING_KEY, size_row);
        let ghost one = form_entries(values);
        proof {
            assert(one =~= seq![(FIX_INDICATOR_SIZE_SETTING_KEY@, size_row)]);
            lemma_position_of(one, USE_IEC_UNITS_SETTING_KEY@);
        }
        form_rows_insert(&mut values, USE_IEC_UNITS_SETTING_KEY, units_row);
        proof {
            let two = form_entries(values);
            assert(two =~= one.push((USE_IEC_UNITS_SETTING_KEY@, units_row)));
            assert(rows_of(two) =~= general_rows(config.fix_indicator_size, config.use_iec_units));
        }
        SettingsForm {
            settings_window_id: SettingsWindow::General,
            title: "settings-general-title".to_string(),
            values,
        }
    }
}

} // verus!
