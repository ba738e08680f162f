//! The commands that read a setting of an iiyama display.
use vstd::prelude::*;

verus! {

pub struct GetRequest {
    pub monitor_id: u8,
    pub command: GetCommand,
}

/// Enum representing the different request functions for getting data from the monitor
#[derive(Debug, Clone, Copy, PartialEq, Eq, Structural)]
pub enum GetCommand {
    PlatformAndVersionLabels,
    PowerState,
    UserInputControl,
    PowerStateAtColdStart,
    CurrentSource,
    VideoParameters,
    ColorTemperature,
    ColorParameters,
    PictureFormat,
    Volume,
    AudioParameters,
    MiscellaneousInfo,
    SerialCode,
}

impl GetCommand {
    /// The function code that the display answers with this reading.
    pub open spec fn spec_command_code(self) -> u8 {
        match self {
            GetCommand::PlatformAndVersionLabels => 0xa2,
            GetCommand::PowerState => 0x19,
            GetCommand::UserInputControl => 0x1d,
            GetCommand::PowerStateAtColdStart => 0xa4,
            GetCommand::CurrentSource => 0xad,
            GetCommand::VideoParameters => 0x33,
            GetCommand::ColorTemperature => 0x35,
            GetCommand::ColorParameters => 0x37,
            GetCommand::PictureFormat => 0x3b,
            GetCommand::Volume => 0x45,
            GetCommand::AudioParameters => 0x43,
            GetCommand::MiscellaneousInfo => 0x0f,
            GetCommand::SerialCode => 0x15,
        }
    }

    pub fn get_command_code(&self) -> (r: u8)
        ensures
            r == self.spec_command_code(),
    {
        match self {
            GetCommand::PlatformAndVersionLabels => 0xa2,
            GetCommand::PowerState => 0x19,
            GetCommand::UserInputControl => 0x1d,
            GetCommand::PowerStateAtColdStart => 0xa4,
            GetCommand::CurrentSource => 0xad,
            GetCommand::VideoParameters => 0x33,
            GetCommand::ColorTemperature => 0x35,
            GetCommand::ColorParameters => 0x37,
            GetCommand::PictureFormat => 0x3b,
            GetCommand::Volume => 0x45,
            GetCommand::AudioParameters => 0x43,
            GetCommand::MiscellaneousInfo => 0x0f,
            GetCommand::SerialCode => 0x15,
        }
    }
}

/// The function code of every reading, as the protocol fixes it; no two
/// readings share a code.
pub proof fn lemma_get_command_codes()
    ensures
        GetCommand::PlatformAndVersionLabels.spec_command_code() == 0xa2,
        GetCommand::PowerState.spec_command_code() == 0x19,
        GetCommand::UserInputControl.spec_command_code() == 0x1d,
        GetCommand::PowerStateAtColdStart.spec_command_code() == 0xa4,
        GetCommand::CurrentSource.spec_command_code() == 0xad,
        GetCommand::VideoParameters.spec_command_code() == 0x33,
        GetCommand::ColorTemperature.spec_command_code() == 0x35,
        GetCommand::ColorParameters.spec_command_code() == 0x37,
        GetCommand::PictureFormat.spec_command_code() == 0x3b,
        GetCommand::Volume.spec_command_code() == 0x45,
        GetCommand::AudioParameters.spec_command_code() == 0x43,
        GetCommand::MiscellaneousInfo.spec_command_code() == 0x0f,
        GetCommand::SerialCode.spec_command_code() == 0x15,
        forall|a: GetCommand, b: GetCommand| a.spec_command_code() == b.spec_command_code() ==> a == b,
{
}

} // verus!
