//! Settings that all indicators share.

use crate::configuration::validation::{sanitised_boolean, ConfigurationValidation};
use crate::settings::{
    SettingsForm, SettingsWindow, FIX_INDICATOR_SIZE_SETTING_KEY, USE_IEC_UNITS_SETTING_KEY,
};
use vstd::prelude::*;

verus! {

/// The font size that indicators are drawn with unless a panel size says
/// otherwise.
pub const DEFAULT_INDICATOR_FONT_SIZE: u16 = 14;

/// Settings that all indicators share: the font size for each size of a
/// vertical and of a horizontal panel, and how values are laid out and
/// written.
#[derive(Debug, Clone, Copy, Eq, PartialEq, Structural)]
pub struct GeneralConfiguration {
    pub vertical_font_size_xs: u16,
    pub vertical_font_size_sm: u16,
    pub vertical_font_size_md: u16,
    pub vertical_font_size_lg: u16,
    pub vertical_font_size_xl: u16,
    pub horizontal_font_size_xs: u16,
    pub horizontal_font_size_sm: u16,
    pub horizontal_font_size_md: u16,
    pub horizontal_font_size_lg: u16,
    pub horizontal_font_size_xl: u16,
    /// Whether the width of an indicator's value is fixed to that of its
    /// widest text, so that the panel does not jitter.
    pub fix_indicator_size: bool,
    /// Whether sizes are written in binary units (MiB, GiB) rather than in
    /// decimal ones (MB, GB).
    pub use_iec_units: bool,
}

impl GeneralConfiguration {
    /// The settings that a fresh installation starts with.
    pub open spec fn initial() -> GeneralConfiguration {
        GeneralConfiguration {
            vertical_font_size_xs: 9,
            vertical_font_size_sm: 11,
            vertical_font_size_md: 14,
            vertical_font_size_lg: 14,
            vertical_font_size_xl: 14,
            horizontal_font_size_xs: 14,
            horizontal_font_size_sm: 16,
            horizontal_font_size_md: 18,
            horizontal_font_size_lg: 20,
            horizontal_font_size_xl: 22,
            fix_indicator_size: true,
            use_iec_units: false,
        }
    }
}

impl Default for GeneralConfiguration {
    fn default() -> (configuration: Self)
        ensures
            configuration == GeneralConfiguration::initial(),
    {
        GeneralConfiguration {
            vertical_font_size_xs: DEFAULT_INDICATOR_FONT_SIZE - 5,
            vertical_font_size_sm: DEFAULT_INDICATOR_FONT_SIZE - 3,
            vertical_font_size_md: DEFAULT_INDICATOR_FONT_SIZE,
            vertical_font_size_lg: DEFAULT_INDICATOR_FONT_SIZE,
            vertical_font_size_xl: DEFAULT_INDICATOR_FONT_SIZE,
            horizontal_font_size_xs: DEFAULT_INDICATOR_FONT_SIZE,
            horizontal_font_size_sm: DEFAULT_INDICATOR_FONT_SIZE + 2,
            horizontal_font_size_md: DEFAULT_INDICATOR_FONT_SIZE + 4,
            horizontal_font_size_lg: DEFAULT_INDICATOR_FONT_SIZE + 6,
            horizontal_font_size_xl: DEFAULT_INDICATOR_FONT_SIZE + 8,
            fix_indicator_size: true,
            use_iec_units: false,
        }
    }
}

impl GeneralConfiguration {
    /// Whether `form` is the form of the whole panel and holds every row
    /// that its settings are read from.
    pub open spec fn updatable_from(form: &SettingsForm) -> bool {
        &&& form.settings_window_id == SettingsWindow::General
        &&& form.value_of(FIX_INDICATOR_SIZE_SETTING_KEY@) is Some
        &&& form.value_of(USE_IEC_UNITS_SETTING_KEY@) is Some
    }

    /// What these settings become when they are read anew from `form`: the
    /// two switches are held to their rule, and one that does not meet it
    /// stays as it was; the font sizes stay as they are.
    pub open spec fn updated_from(self, form: &SettingsForm) -> GeneralConfiguration {
        GeneralConfiguration {
            fix_indicator_size: sanitised_boolean(
                form.value_of(FIX_INDICATOR_SIZE_SETTING_KEY@)->0,
                self.fix_indicator_size,
            ),
            use_iec_units: sanitised_boolean(
                form.value_of(USE_IEC_UNITS_SETTING_KEY@)->0,
                self.use_iec_units,
            ),
            ..self
        }
    }

    /// These settings read anew from `settings_form`, or nothing if the
    /// form is that of another window or lacks a row.
    pub fn try_update(&self, settings_form: &SettingsForm) -> (result: Option<Self>)
        ensures
            result == if Self::updatable_from(settings_form) {
                Some(self.updated_from(settings_form))
            } else {
                None
            },
    {
        match settings_form.settings_window_id {
            SettingsWindow::General => {},
            _ => {
                return None;
            },
        }
        let fix_indicator_size = match settings_form.value(FIX_INDICATOR_SIZE_SETTING_KEY) {
            Some(text) => text,
            None => {
                return None;
            },
        };
        let use_iec_units = match settings_form.value(USE_IEC_UNITS_SETTING_KEY) {
            Some(text) => text,
            None => {
                return None;
            },
        };
        Some(
            GeneralConfiguration {
                fix_indicator_size: ConfigurationValidation::sanitise_boolean_input(
                    fix_indicator_size,
                    self.fix_indicator_size,
                ),
                use_iec_units: ConfigurationValidation::sanitise_boolean_input(
                    use_iec_units,
                    self.use_iec_units,
                ),
                ..*self
            },
        )
    }

    /// These settings read anew from the form of the whole panel, which
    /// holds every row that they are read from.
    pub fn update(&self, settings_form: &SettingsForm) -> (after: Self)
        requires
            Self::updatable_from(settings_form),
        ensures
            after == self.updated_from(settings_form),
    {
        match self.try_update(settings_form) {
            Some(after) => after,
            None => *self,
        }
    }
}

} // verus!
