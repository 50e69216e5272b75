//! The configuration of the CPU monitor.

use crate::configuration::interval::{duration_from_millis, millis};
use crate::configuration::validation::{
    sanitised_boolean, sanitised_interval, sanitised_label_text, sanitised_max_samples,
    ConfigurationValidation,
};
use crate::settings::{
    text_of, text_or_empty, SettingsForm, SettingsWindow, HIDE_INDICATOR_SETTING_KEY,
    LABEL_COLOUR_SETTING_KEY, LABEL_TEXT_SETTING_KEY, MAX_SAMPLES_SETTING_KEY,
    UPDATE_INTERVAL_SETTING_KEY,
};
use std::time::Duration;
use vstd::prelude::*;

verus! {

/// The configuration of the CPU monitor.
#[derive(Debug, Clone, Eq, PartialEq)]
pub struct CpuConfiguration {
    /// Whether the indicator is hidden from the panel; a hidden monitor is
    /// not polled.
    pub hide_indicator: bool,
    /// The time between two polls.
    pub update_interval: Duration,
    /// The number of samples that are kept and averaged.
    pub max_samples: usize,
    /// The key of the colour of the indicator's label.
    pub label_colour: Option<String>,
    /// The text of the indicator's label.
    pub label_text: Option<String>,
}

impl CpuConfiguration {
    /// Whether these are the settings that a fresh installation starts
    /// with.
    pub open spec fn is_initial(&self) -> bool {
        &&& !self.hide_indicator
        &&& self.update_interval == millis(1000)
        &&& self.max_samples == 4
        &&& self.label_colour matches Some(colour)
        &&& colour@ == "ext_blue"@
        &&& self.label_text matches Some(text)
        &&& text@ == "CPU"@
    }
}

impl Default for CpuConfiguration {
    fn default() -> (configuration: Self)
        ensures
            configuration.is_initial(),
    {
        CpuConfiguration {
            hide_indicator: false,
            update_interval: duration_from_millis(1000),
            max_samples: 4,
            label_colour: Some("ext_blue".to_string()),
            label_text: Some("CPU".to_string()),
        }
    }
}

impl CpuConfiguration {
    /// Whether `form` is the form of this monitor and holds every row that
    /// its settings are read from.
    pub open spec fn updatable_from(form: &SettingsForm) -> bool {
        &&& form.settings_window_id == SettingsWindow::Cpu
        &&& form.value_of(HIDE_INDICATOR_SETTING_KEY@) is Some
        &&& form.value_of(UPDATE_INTERVAL_SETTING_KEY@) is Some
        &&& form.value_of(MAX_SAMPLES_SETTING_KEY@) is Some
        &&& form.value_of(LABEL_COLOUR_SETTING_KEY@) is Some
        &&& form.value_of(LABEL_TEXT_SETTING_KEY@) is Some
    }

    /// Whether `after` is what these settings become when they are read
    /// anew from `form`: each row is held to its rule, and a row that does
    /// not meet it leaves the setting as it was. The colour is taken as it
    /// stands.
    pub open spec fn updated_to(&self, after: &Self, form: &SettingsForm) -> bool {
        &&& after.hide_indicator == sanitised_boolean(
            form.value_of(HIDE_INDICATOR_SETTING_KEY@)->0,
            self.hide_indicator,
        )
        &&& after.update_interval == sanitised_interval(
            form.value_of(UPDATE_INTERVAL_SETTING_KEY@)->0,
            self.update_interval,
        )
        &&& after.max_samples == sanitised_max_samples(
            form.value_of(MAX_SAMPLES_SETTING_KEY@)->0,
            self.max_samples,
        )
        &&& after.label_colour matches Some(colour)
        &&& colour@ == form.value_of(LABEL_COLOUR_SETTING_KEY@)->0
        &&& after.label_text matches Some(text)
        &&& text@ == sanitised_label_text(
            form.value_of(LABEL_TEXT_SETTING_KEY@)->0,
            text_of(self.label_text),
        )
    }

    /// These settings read anew from `settings_form`, or nothing if the
    /// form is that of another window or lacks a row.
    pub fn try_update(&self, settings_form: &SettingsForm) -> (result: Option<Self>)
        ensures
            result is Some <==> Self::updatable_from(settings_form),
            result matches Some(after) ==> self.updated_to(&after, settings_form),
    {
        match settings_form.settings_window_id {
            SettingsWindow::Cpu => {},
            _ => {
                return None;
            },
        }
        let hide_indicator = match settings_form.value(HIDE_INDICATOR_SETTING_KEY) {
            Some(text) => text,
            None => {
                return None;
            },
        };
        let update_interval = match settings_form.value(UPDATE_INTERVAL_SETTING_KEY) {
            Some(text) => text,
            None => {
                return None;
            },
        };
        let max_samples = match settings_form.value(MAX_SAMPLES_SETTING_KEY) {
            Some(text) => text,
            None => {
                return None;
            },
        };
        let label_colour = match settings_form.value(LABEL_COLOUR_SETTING_KEY) {
            Some(text) => text,
            None => {
                return None;
            },
        };
        let label_text = match settings_form.value(LABEL_TEXT_SETTING_KEY) {
            Some(text) => text,
            None => {
                return None;
            },
        };
        Some(
            CpuConfiguration {
                hide_indicator: ConfigurationValidation::sanitise_boolean_input(
                    hide_indicator,
                    self.hide_indicator,
                ),
                update_interval: ConfigurationValidation::sanitise_interval_input(
                    update_interval,
                    self.update_interval,
                ),
                max_samples: ConfigurationValidation::sanitise_max_samples(
                    max_samples,
                    self.max_samples,
                ),
                label_colour: Some(label_colour),
                label_text: Some(
                    ConfigurationValidation::sanitise_label_text(
                        label_text,
                        text_or_empty(&self.label_text),
                    ),
                ),
            },
        )
    }

    /// These settings read anew from the form of this monitor, which holds
    /// every row that they are read from.
    pub fn update(&self, settings_form: &SettingsForm) -> (after: Self)
        requires
            Self::updatable_from(settings_form),
        ensures
            self.updated_to(&after, settings_form),
    {
        match self.try_update(settings_form) {
            Some(after) => after,
            None => {
                proof {
                    assert(false);
                }
                Self::default()
            },
        }
    }
}

} // verus!
