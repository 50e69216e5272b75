//! The rules that a setting typed into a form has to meet, and what a
//! setting becomes when it does not meet them.

use crate::configuration::app_configuration::{
    SENSOR_INTERVAL_MINIMUM_IN_MS, SENSOR_MAX_LABEL_LENGTH, SENSOR_MAX_SAMPLES_MINIMUM,
};
use crate::configuration::interval::{duration_from_millis, millis};
use crate::text::{
    boolean, chars_of, decimal_u64, decimal_usize, parse_bool, parse_u64, parse_usize, string_of,
    trim, trimmed,
};
use std::time::Duration;
use vstd::prelude::*;

verus! {

/// The number of bytes that `c` takes in UTF-8.
pub open spec fn char_width(c: char) -> nat {
    let code = c as u32;
    if code < 0x80 {
        1
    } else if code < 0x800 {
        2
    } else if code < 0x10000 {
        3
    } else {
        4
    }
}

/// The number of bytes that `s` takes in UTF-8.
pub open spec fn byte_length(s: Seq<char>) -> nat
    decreases s.len(),
{
    if s.len() == 0 {
        0
    } else {
        byte_length(s.drop_last()) + char_width(s.last())
    }
}

/// The longest prefix of `s` that takes at most `limit` bytes in UTF-8.
pub open spec fn fitting_prefix(s: Seq<char>, limit: nat) -> Seq<char>
    decreases s.len(),
{
    if s.len() > 0 && char_width(s[0]) <= limit {
        seq![s[0]] + fitting_prefix(s.drop_first(), (limit - char_width(s[0])) as nat)
    } else {
        Seq::empty()
    }
}

/// The polling interval, in milliseconds, that `input` asks for: a decimal
/// number of at least the minimum, surrounded by any white space.
pub open spec fn valid_interval(input: Seq<char>) -> Option<u64> {
    match decimal_u64(trimmed(input)) {
        Some(value) => if value >= SENSOR_INTERVAL_MINIMUM_IN_MS {
            Some(value)
        } else {
            None
        },
        None => None,
    }
}

/// The window size that `input` asks for: a decimal number of at least the
/// minimum, surrounded by any white space.
pub open spec fn valid_max_samples(input: Seq<char>) -> Option<usize> {
    match decimal_usize(trimmed(input)) {
        Some(value) => if value >= SENSOR_MAX_SAMPLES_MINIMUM {
            Some(value)
        } else {
            None
        },
        None => None,
    }
}

/// The truth value that `input` asks for: `true` or `false`, surrounded by
/// any white space.
pub open spec fn valid_boolean(input: Seq<char>) -> Option<bool> {
    boolean(trimmed(input))
}

/// Whether `input` can label an indicator: it holds more than white space
/// and takes no more bytes than a label may.
pub open spec fn valid_label_text(input: Seq<char>) -> bool {
    trimmed(input).len() > 0 && byte_length(input) <= SENSOR_MAX_LABEL_LENGTH
}

/// The label that `new_input` becomes, given the label that was there
/// before: without surrounding white space, cut to the bytes that a label
/// may take, and the previous label if nothing but white space was typed.
pub open spec fn sanitised_label_text(new_input: Seq<char>, previous_input: Seq<char>) -> Seq<
    char,
> {
    if trimmed(new_input).len() == 0 {
        trimmed(previous_input)
    } else if byte_length(new_input) > SENSOR_MAX_LABEL_LENGTH {
        trimmed(fitting_prefix(new_input, SENSOR_MAX_LABEL_LENGTH as nat))
    } else {
        trimmed(new_input)
    }
}

/// The polling interval that `input` becomes, given the one that was set
/// before.
pub open spec fn sanitised_interval(input: Seq<char>, previous: Duration) -> Duration {
    match valid_interval(input) {
        Some(value) => millis(value),
        None => previous,
    }
}

/// The window size that `input` becomes, given the one that was set before.
pub open spec fn sanitised_max_samples(input: Seq<char>, previous: usize) -> usize {
    match valid_max_samples(input) {
        Some(value) => value,
        None => previous,
    }
}

/// The truth value that `input` becomes, given the one that was set before.
pub open spec fn sanitised_boolean(input: Seq<char>, previous: bool) -> bool {
    match valid_boolean(input) {
        Some(value) => value,
        None => previous,
    }
}

/// The number of bytes that `c` takes in UTF-8.
pub fn width_of(c: char) -> (width: usize)
    ensures
        width == char_width(c),
{
    let code: u32 = c as u32;
    if code < 0x80 {
        1
    } else if code < 0x800 {
        2
    } else if code < 0x10000 {
        3
    } else {
        4
    }
}

/// Whether `s` takes more than `limit` bytes in UTF-8.
pub fn exceeds(s: &Vec<char>, limit: usize) -> (over: bool)
    ensures
        over == (byte_length(s@) > limit),
{
    let mut used: usize = 0;
    let mut i: usize = 0;
    while i < s.len()
        invariant
            i <= s@.len(),
            used == byte_length(s@.take(i as int)),
            used <= limit,
        decreases s@.len() - i,
    {
        let width = width_of(s[i]);
        proof {
            assert(s@.take(i + 1).drop_last() =~= s@.take(i as int));
            lemma_byte_length_grows(s@, i + 1);
        }
        if width > limit - used {
            return true;
        }
        used = used + width;
        i = i + 1;
    }
    assert(s@.take(s@.len() as int) =~= s@);
    false
}

/// A prefix of a text takes no more bytes than the text.
pub proof fn lemma_byte_length_grows(s: Seq<char>, n: int)
    requires
        0 <= n <= s.len(),
    ensures
        byte_length(s.take(n)) <= byte_length(s),
    decreases s.len() - n,
{
    if n < s.len() {
        let shorter = s.drop_last();
        assert(shorter.take(n) =~= s.take(n));
        lemma_byte_length_grows(shorter, n);
    } else {
        assert(s.take(n) =~= s);
    }
}

/// The longest prefix of `s` that takes at most `limit` bytes in UTF-8.
pub fn truncate(s: &Vec<char>, limit: usize) -> (prefix: Vec<char>)
    ensures
        prefix@ == fitting_prefix(s@, limit as nat),
{
    let mut prefix: Vec<char> = Vec::new();
    let mut left: usize = limit;
    let mut i: usize = 0;
    proof {
        assert(s@.skip(0) =~= s@);
        assert(prefix@ + fitting_prefix(s@, limit as nat) =~= fitting_prefix(s@, limit as nat));
    }
    while i < s.len() && width_of(s[i]) <= left
        invariant
            i <= s@.len(),
            fitting_prefix(s@, limit as nat) == prefix@ + fitting_prefix(
                s@.skip(i as int),
                left as nat,
            ),
        decreases s@.len() - i,
    {
        let c: char = s[i];
        proof {
            let rest = s@.skip(i as int);
            assert(rest[0] == c);
            assert(rest.drop_first() =~= s@.skip(i + 1));
            assert(prefix@ + (seq![c] + fitting_prefix(
                rest.drop_first(),
                (left - char_width(c)) as nat,
            )) =~= prefix@.push(c) + fitting_prefix(
                rest.drop_first(),
                (left - char_width(c)) as nat,
            ));
        }
        left = left - width_of(c);
        prefix.push(c);
        i = i + 1;
    }
    proof {
        let rest = s@.skip(i as int);
        if i < s@.len() {
            assert(rest[0] == s@[i as int]);
        }
        assert(fitting_prefix(rest, left as nat) =~= Seq::<char>::empty());
        assert(prefix@ + Seq::<char>::empty() =~= prefix@);
    }
    prefix
}

/// The rules for the settings of a monitor.
pub struct ConfigurationValidation;

impl ConfigurationValidation {
    /// Accepts exactly the inputs that ask for a polling interval. The
    /// error is the key of the message to show.
    pub fn is_valid_interval(input: &str) -> (result: Result<(), String>)
        ensures
            result is Ok <==> valid_interval(input@) is Some,
            result matches Err(message) ==> message@ == "settings-interval-error"@,
    {
        let bare = trim(&chars_of(input));
        match parse_u64(&bare) {
            Some(value) => {
                if value >= SENSOR_INTERVAL_MINIMUM_IN_MS {
                    Ok(())
                } else {
                    Err("settings-interval-error".to_string())
                }
            },
            None => Err("settings-interval-error".to_string()),
        }
    }

    /// The polling interval that `new_input` asks for, or
    /// `previous_interval` if it asks for none.
    pub fn sanitise_interval_input(new_input: String, previous_interval: Duration) -> (interval:
        Duration)
        ensures
            interval == sanitised_interval(new_input@, previous_interval),
    {
        let bare = trim(&chars_of(new_input.as_str()));
        match parse_u64(&bare) {
            Some(value) => {
                if value >= SENSOR_INTERVAL_MINIMUM_IN_MS {
                    duration_from_millis(value)
                } else {
                    previous_interval
                }
            },
            None => previous_interval,
        }
    }

    /// Accepts exactly the inputs that spell a truth value.
    pub fn is_valid_boolean(input: &str) -> (result: Result<(), String>)
        ensures
            result is Ok <==> valid_boolean(input@) is Some,
            result matches Err(message) ==> message@ == "Not valid boolean"@,
    {
        let bare = trim(&chars_of(input));
        match parse_bool(&bare) {
            Some(_) => Ok(()),
            None => Err("Not valid boolean".to_string()),
        }
    }

    /// The truth value that `new_input` spells, or `previous_value` if it
    /// spells none.
    pub fn sanitise_boolean_input(new_input: String, previous_value: bool) -> (value: bool)
        ensures
            value == sanitised_boolean(new_input@, previous_value),
    {
        let bare = trim(&chars_of(new_input.as_str()));
        match parse_bool(&bare) {
            Some(spelled) => spelled,
            None => previous_value,
        }
    }

    /// Accepts exactly the inputs that ask for a window size. The error is
    /// the key of the message to show.
    pub fn is_valid_max_samples(input: &str) -> (result: Result<(), String>)
        ensures
            result is Ok <==> valid_max_samples(input@) is Some,
            result matches Err(message) ==> message@ == "settings-max-samples-error"@,
    {
        let bare = trim(&chars_of(input));
        match parse_usize(&bare) {
            Some(value) => {
                if value >= SENSOR_MAX_SAMPLES_MINIMUM {
                    Ok(())
                } else {
                    Err("settings-max-samples-error".to_string())
                }
            },
            None => Err("settings-max-samples-error".to_string()),
        }
    }

    /// The window size that `new_input` asks for, or `old_value` if it asks
    /// for none.
    pub fn sanitise_max_samples(new_input: String, old_value: usize) -> (max_samples: usize)
        ensures
            max_samples == sanitised_max_samples(new_input@, old_value),
    {
        let bare = trim(&chars_of(new_input.as_str()));
        match parse_usize(&bare) {
            Some(value) => {
                if value >= SENSOR_MAX_SAMPLES_MINIMUM {
                    value
                } else {
                    old_value
                }
            },
            None => old_value,
        }
    }

    /// Accepts exactly the inputs that can label an indicator. The error is
    /// the key of the message to show.
    pub fn is_valid_label_text(input: &str) -> (result: Result<(), String>)
        ensures
            result is Ok <==> valid_label_text(input@),
            result matches Err(message) ==> message@ == "settings-label-text-error"@,
    {
        let chars = chars_of(input);
        let bare = trim(&chars);
        if bare.len() == 0 || exceeds(&chars, SENSOR_MAX_LABEL_LENGTH) {
            Err("settings-label-text-error".to_string())
        } else {
            Ok(())
        }
    }

    /// The label that `new_input` becomes, given the label that was there
    /// before.
    pub fn sanitise_label_text(new_input: String, previous_input: String) -> (label: String)
        ensures
            label@ == sanitised_label_text(new_input@, previous_input@),
    {
        let chars = chars_of(new_input.as_str());
        let bare = trim(&chars);
        if bare.len() == 0 {
            let previous = chars_of(previous_input.as_str());
            string_of(&trim(&previous))
        } else if exceeds(&chars, SENSOR_MAX_LABEL_LENGTH) {
            let cut = truncate(&chars, SENSOR_MAX_LABEL_LENGTH);
            string_of(&trim(&cut))
        } else {
            string_of(&bare)
        }
    }
}

} // verus!
