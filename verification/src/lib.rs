//! Control of large-format displays over RS-232 or TCP.
//!
//! The library holds the verified core: the frames of the iiyama
//! control protocol, the typed settings a display accepts and the
//! queue of requested settings.
pub mod checksum;
pub mod common;
pub mod text;
pub mod dialect;
pub mod iiyama;
pub mod connection;
pub mod controller;

use vstd::prelude::*;

use crate::connection::UserConnectionSettings;
use crate::controller::{AddSettingsError, RequestedSetting};
use crate::text::{append_decimal, decimal, str_eq};

verus! {

/// The prefix that marks a message about a screen: its label in quotes,
/// or its number when it has no label.
pub open spec fn screen_label_prefix(label: Option<Seq<char>>, screen_number: nat) -> Seq<char> {
    match label {
        Some(l) => "Screen \""@ + l + "\": "@,
        None => "Screen "@ + decimal(screen_number) + ": "@,
    }
}

/// The characters of an optional label.
pub open spec fn label_view(label: Option<String>) -> Option<Seq<char>> {
    match label {
        Some(l) => Some(l@),
        None => None,
    }
}

#[must_use]
pub fn get_screen_label_prefix(label: &Option<String>, screen_number: usize) -> (r: String)
    ensures
        r@ == screen_label_prefix(label_view(*label), screen_number as nat),
{
    match label {
        Some(l) => {
            let mut prefix = String::from_str("Screen \"");
            prefix.append(l.as_str());
            prefix.append("\": ");
            prefix
        },
        None => {
            let mut prefix = String::from_str("Screen ");
            append_decimal(&mut prefix, screen_number);
            prefix.append(": ");
            prefix
        },
    }
}

/// The settings to read from one display.
#[derive(Debug)]
pub struct ReadUserSettings {
    pub connection: UserConnectionSettings,
    pub label: Option<String>,
}

/// The settings to write to one display, in the dialect it speaks.
#[derive(Debug)]
pub struct WriteUserSettings {
    pub dialect: String,
    pub connection: UserConnectionSettings,
    pub label: Option<String>,
    pub validate: bool,
    pub requested_settings: Vec<RequestedSetting>,
}

/// The control protocols that displays can speak.
#[derive(Debug, Clone, Copy, PartialEq, Eq, Structural)]
pub enum Dialect {
    /// iiyama large-format displays
    Iiyama,
}

impl Dialect {
    /// The dialect called `name`, if there is one.
    pub open spec fn spec_from_name(name: Seq<char>) -> Option<Dialect> {
        if name == "iiyama"@ {
            Some(Dialect::Iiyama)
        } else {
            None
        }
    }

    /// The dialect called `name`, if there is one.
    pub fn from_name(name: &str) -> (r: Option<Dialect>)
        ensures
            r == Dialect::spec_from_name(name@),
    {
        if str_eq(name, "iiyama") {
            Some(Dialect::Iiyama)
        } else {
            None
        }
    }
}

/// The report of a display whose dialect is not supported; a display
/// without label is called "unnamed".
pub open spec fn unsupported_dialect_message(label: Option<Seq<char>>, dialect: Seq<char>) -> Seq<
    char,
> {
    "Screen \""@ + (match label {
        Some(l) => l,
        None => "unnamed"@,
    }) + "\": Unsupported dialect: "@ + dialect
}

/// Reports that `dialect` is not supported for the display labelled `label`.
pub fn get_unsupported_dialect_message(label: &Option<String>, dialect: &str) -> (r: String)
    ensures
        r@ == unsupported_dialect_message(label_view(*label), dialect@),
{
    let mut message = String::from_str("Screen \"");
    match label {
        Some(l) => message.append(l.as_str()),
        None => message.append("unnamed"),
    }
    message.append("\": Unsupported dialect: ");
    message.append(dialect);
    message
}

/// The report of a requested setting that could not be queued, after the
/// screen's prefix.
pub open spec fn add_settings_error_text(setting_name: Seq<char>, error: AddSettingsError) -> Seq<
    char,
> {
    match error {
        AddSettingsError::UnknownSetting => "Unknown setting '"@ + setting_name + "'"@,
        AddSettingsError::InvalidValue(value) => "Invalid value for setting '"@ + setting_name
            + "': "@ + value@,
        AddSettingsError::InvalidType(expected) => "Invalid type for setting '"@ + setting_name
            + "', expected: "@ + expected@,
    }
}

/// Reports that setting `setting_name` of screen `screen_number`
/// (labelled `label`) could not be queued because of `error`.
pub fn get_add_settings_error_message(
    label: &Option<String>,
    screen_number: usize,
    setting_name: &str,
    error: &AddSettingsError,
) -> (r: String)
    ensures
        r@ == screen_label_prefix(label_view(*label), screen_number as nat)
            + add_settings_error_text(setting_name@, *error),
{
    let mut message = get_screen_label_prefix(label, screen_number);
    match error {
        AddSettingsError::UnknownSetting => {
            message.append("Unknown setting '");
            message.append(setting_name);
            message.append("'");
        },
        AddSettingsError::InvalidValue(value) => {
            message.append("Invalid value for setting '");
            message.append(setting_name);
            message.append("': ");
            message.append(value.as_str());
        },
        AddSettingsError::InvalidType(expected_type) => {
            message.append("Invalid type for setting '");
            message.append(setting_name);
            message.append("', expected: ");
            message.append(expected_type);
        },
    }
    message
}

} // verus!
