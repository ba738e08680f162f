//! The settings that users request, the entries read back from a
//! display, and the errors of adding and executing settings.
use vstd::prelude::*;

verus! {

/// A JSON value as given by the user; carried through unread.
#[verifier::external_type_specification]
#[verifier::external_body]
pub struct ExJsonValue(serde_json::Value);

/// The kind of an I/O error met while talking to a display.
#[verifier::external_type_specification]
#[verifier::external_body]
pub struct ExIoErrorKind(std::io::ErrorKind);

#[derive(Debug)]
pub struct TimeFilter {
    pub start: String,
    pub end: String,
}

#[derive(Debug)]
pub struct RequestedSetting {
    pub name: String,
    pub value: serde_json::Value,
    pub time_filter: Option<TimeFilter>,
}

impl RequestedSetting {
    #[must_use]
    pub fn get_name(&self) -> (r: &str)
        ensures
            r@ == self.name@,
    {
        self.name.as_str()
    }

    #[must_use]
    pub fn get_value(&self) -> (r: &serde_json::Value)
        ensures
            *r == self.value,
    {
        &self.value
    }
}

#[derive(Debug, PartialEq)]
pub struct SettingEntry {
    pub name: String,
    pub value: serde_json::Value,
}

impl SettingEntry {
    #[must_use]
    pub fn new(name: String, value: serde_json::Value) -> (r: Self)
        ensures
            r.name == name,
            r.value == value,
    {
        Self { name, value }
    }

    #[must_use]
    pub fn get_name(&self) -> (r: &str)
        ensures
            r@ == self.name@,
    {
        self.name.as_str()
    }

    #[must_use]
    pub fn get_value(&self) -> (r: &serde_json::Value)
        ensures
            *r == self.value,
    {
        &self.value
    }
}

#[derive(Debug, Clone)]
pub struct ValueDiff<T> {
    pub old_value: T,
    pub new_value: T,
}

#[derive(Debug)]
pub enum SettingValueDiff {
    Unchanged,
    Changed(ValueDiff<serde_json::Value>),
}

#[derive(Debug)]
pub struct SettingDiff {
    pub name: String,
    pub value_diff: SettingValueDiff,
}

/// Why a requested setting was not queued.
#[derive(Debug, Clone, PartialEq, Eq)]
pub enum AddSettingsError {
    /// The display knows no setting of that name.
    UnknownSetting,
    /// The value is not allowed for the setting.
    InvalidValue(String),
    /// The value does not have the expected type, described here.
    InvalidType(&'static str),
}

/// Why queued settings could not be executed on a display.
#[derive(Debug, PartialEq)]
pub enum ExecuteSettingsError {
    CommunicationError(std::io::ErrorKind),
    SettingUnavailable(String),
    FailedSetting(serde_json::Value),
}

} // verus!
