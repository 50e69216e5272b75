//! What the text typed into a form becomes before it is shown again: every
//! input is turned into a value that can be kept, never turned down.

use crate::configuration::app_configuration::{
    SENSOR_INTERVAL_MINIMUM_IN_MS, SENSOR_MAX_SAMPLES_MINIMUM,
};
use crate::configuration::interval::{duration_from_millis, millis};
use crate::configuration::validation::{byte_length, exceeds, fitting_prefix, truncate};
use crate::text::{
    chars_of, decimal_u64, decimal_usize, parse_u64, parse_usize, string_of, trim, trimmed,
};
use hex_color::HexColor;
use std::time::Duration;
use vstd::prelude::*;

verus! {

/// The longest label that a form keeps, in bytes of UTF-8.
pub const FORM_MAX_LABEL_LENGTH: usize = 16;

/// A colour of four channels.
#[derive(Debug, Clone, Copy, PartialEq, Eq, Structural)]
pub struct LabelColour {
    pub r: u8,
    pub g: u8,
    pub b: u8,
    /// 0 is transparent, 255 is opaque.
    pub a: u8,
}

/// The colour that a hexadecimal colour code denotes, if it denotes one.
pub uninterp spec fn hex_colour(code: Seq<char>) -> Option<LabelColour>;

/// Parses a colour code with `hex_color::HexColor::parse`, which reads
/// codes of the forms `#RGB`, `#RGBA`, `#RRGGBB` and `#RRGGBBAA`. Whether a
/// text is read, and as which colour, depends on the text alone; that is all
/// that is taken from the call.
#[verifier::external_body]
pub(crate) fn parse_hex_colour(code: &str) -> (colour: Option<LabelColour>)
    ensures
        colour == hex_colour(code@),
{
    match HexColor::parse(code) {
        Ok(parsed) => Some(LabelColour { r: parsed.r, g: parsed.g, b: parsed.b, a: parsed.a }),
        Err(_) => None,
    }
}

/// The rules by which a form keeps what is typed into it.
pub struct FormInputValidation;

impl FormInputValidation {
    /// The colour that `new_input` denotes, or `previous_colour` if it
    /// denotes none.
    pub fn sanitise_label_colour(new_input: String, previous_colour: LabelColour) -> (colour:
        LabelColour)
        ensures
            colour == match hex_colour(new_input@) {
                Some(parsed) => parsed,
                None => previous_colour,
            },
    {
        match parse_hex_colour(new_input.as_str()) {
            Some(parsed) => parsed,
            None => previous_colour,
        }
    }

    /// The polling interval that `new_input` asks for, raised to the
    /// minimum if it is shorter, or `previous_interval` if it is no number.
    pub fn sanitise_interval_input(new_input: String, previous_interval: Duration) -> (interval:
        Duration)
        ensures
            interval == match decimal_u64(trimmed(new_input@)) {
                Some(value) => if value >= SENSOR_INTERVAL_MINIMUM_IN_MS {
                    millis(value)
                } else {
                    millis(SENSOR_INTERVAL_MINIMUM_IN_MS)
                },
                None => previous_interval,
            },
    {
        let bare = trim(&chars_of(new_input.as_str()));
        match parse_u64(&bare) {
            Some(value) => {
                if value >= SENSOR_INTERVAL_MINIMUM_IN_MS {
                    duration_from_millis(value)
                } else {
                    duration_from_millis(SENSOR_INTERVAL_MINIMUM_IN_MS)
                }
            },
            None => previous_interval,
        }
    }

    /// The window size that `new_input` asks for, raised to the minimum if
    /// it is smaller, or `old_value` if it is no number.
    pub fn sanitise_max_samples(new_input: String, old_value: usize) -> (max_samples: usize)
        ensures
            max_samples == match decimal_usize(trimmed(new_input@)) {
                Some(value) => if value >= SENSOR_MAX_SAMPLES_MINIMUM {
                    value
                } else {
                    SENSOR_MAX_SAMPLES_MINIMUM
                },
                None => old_value,
            },
    {
        let bare = trim(&chars_of(new_input.as_str()));
        match parse_usize(&bare) {
            Some(value) => {
                if value >= SENSOR_MAX_SAMPLES_MINIMUM {
                    value
                } else {
                    SENSOR_MAX_SAMPLES_MINIMUM
                }
            },
            None => old_value,
        }
    }

    /// The label that `new_input` becomes: itself, cut to the bytes that a
    /// form keeps.
    pub fn sanitise_label_text(new_input: String) -> (label: String)
        ensures
            label@ == if byte_length(new_input@) > FORM_MAX_LABEL_LENGTH {
                fitting_prefix(new_input@, FORM_MAX_LABEL_LENGTH as nat)
            } else {
                new_input@
            },
    {
        let chars = chars_of(new_input.as_str());
        if exceeds(&chars, FORM_MAX_LABEL_LENGTH) {
            string_of(&truncate(&chars, FORM_MAX_LABEL_LENGTH))
        } else {
            new_input
        }
    }
}

} // verus!
