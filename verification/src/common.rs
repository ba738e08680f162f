//! Common types and enums used across the application.
use vstd::prelude::*;

use vstd::std_specs::convert::TryFromSpecImpl;

verus! {

#[derive(Debug, Clone, Copy, PartialEq, Eq, Structural)]
pub enum PowerState {
    Off,
    On,
}

/// The text of the error for a power state that is neither "on" nor "off".
pub open spec fn invalid_power_state_message(value: Seq<char>) -> Seq<char> {
    value + " doesn't match 'on' or 'off'"@
}

impl<'a> TryFrom<&'a str> for PowerState {
    type Error = FunctionConversionError;

    /// "on" and "off" name the two power states; any other text is an
    /// invalid value.
    fn try_from(value: &'a str) -> (r: Result<Self, Self::Error>)
        ensures
            value@ == "on"@ ==> r == Ok::<PowerState, FunctionConversionError>(PowerState::On),
            value@ == "off"@ ==> r == Ok::<PowerState, FunctionConversionError>(PowerState::Off),
            value@ != "on"@ && value@ != "off"@ ==> (r matches Err(
                FunctionConversionError::InvalidValue(m),
            ) && m@ == invalid_power_state_message(value@)),
    {
        proof {
            reveal_strlit("on");
            reveal_strlit("off");
            assert("on"@.len() != "off"@.len());
        }
        if crate::text::str_eq(value, "on") {
            Ok(PowerState::On)
        } else if crate::text::str_eq(value, "off") {
            Ok(PowerState::Off)
        } else {
            let mut message = String::from_str(value);
            message.append(" doesn't match 'on' or 'off'");
            Err(FunctionConversionError::InvalidValue(message))
        }
    }
}

impl<'a> TryFromSpecImpl<&'a str> for PowerState {
    open spec fn obeys_try_from_spec() -> bool {
        false
    }

    open spec fn try_from_spec(value: &'a str) -> Result<Self, FunctionConversionError> {
        arbitrary()
    }
}

#[derive(Debug, Clone, Copy, PartialEq, Eq, Structural)]
pub enum RequestResponse {
    Success,
    Error,
    NotAvailable,
}

#[derive(Debug, Clone, PartialEq, Eq)]
pub enum FunctionConversionError {
    UnknownCommand,
    InvalidValue(String),
}

} // verus!
