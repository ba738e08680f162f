//! The first cut of the iiyama protocol: request frames for a few
//! commands, and the baud rates of the serial line.
use vstd::prelude::*;

use vstd::std_specs::convert::TryFromSpecImpl;

use crate::checksum::xor_all;
use crate::common::{self, FunctionConversionError};
use crate::dialect::iiyama::{
    lemma_request_frame as dialect_lemma_request_frame, payload_view,
    RequestPackage as FramePackage,
};

verus! {

#[derive(Debug, Clone, Copy, PartialEq, Eq, Structural)]
pub enum SerialBaudrate {
    B1200,
    B2400,
    B4800,
    B9600,
    B19200,
    B38400,
    B57600,
}

impl SerialBaudrate {
    /// The rate in bits per second.
    pub open spec fn spec_value(self) -> u32 {
        match self {
            SerialBaudrate::B1200 => 1200,
            SerialBaudrate::B2400 => 2400,
            SerialBaudrate::B4800 => 4800,
            SerialBaudrate::B9600 => 9600,
            SerialBaudrate::B19200 => 19200,
            SerialBaudrate::B38400 => 38400,
            SerialBaudrate::B57600 => 57600,
        }
    }

    /// The rate in bits per second.
    pub fn value(self) -> (r: u32)
        ensures
            r == self.spec_value(),
    {
        match self {
            SerialBaudrate::B1200 => 1200,
            SerialBaudrate::B2400 => 2400,
            SerialBaudrate::B4800 => 4800,
            SerialBaudrate::B9600 => 9600,
            SerialBaudrate::B19200 => 19200,
            SerialBaudrate::B38400 => 38400,
            SerialBaudrate::B57600 => 57600,
        }
    }

    /// The supported rate of `value` bits per second, if there is one.
    pub open spec fn from_value(value: u32) -> Result<SerialBaudrate, SerialBaudrateError> {
        if value == 1200 {
            Ok(SerialBaudrate::B1200)
        } else if value == 2400 {
            Ok(SerialBaudrate::B2400)
        } else if value == 4800 {
            Ok(SerialBaudrate::B4800)
        } else if value == 9600 {
            Ok(SerialBaudrate::B9600)
        } else if value == 19200 {
            Ok(SerialBaudrate::B19200)
        } else if value == 38400 {
            Ok(SerialBaudrate::B38400)
        } else if value == 57600 {
            Ok(SerialBaudrate::B57600)
        } else {
            Err(SerialBaudrateError::UnsupportedBaudrate)
        }
    }
}

impl Default for SerialBaudrate {
    fn default() -> (r: Self)
        ensures
            r == SerialBaudrate::B9600,
    {
        SerialBaudrate::B9600
    }
}

#[derive(Debug, Clone, Copy, PartialEq, Eq, Structural)]
pub enum SerialBaudrateError {
    UnsupportedBaudrate,
}

impl TryFrom<u32> for SerialBaudrate {
    type Error = SerialBaudrateError;

    /// Try to convert a u32 value into a SerialBaudrate
    ///
    /// # Errors
    /// Returns [`SerialBaudrateError::UnsupportedBaudrate`]
    /// if the value doesn't match a supported baudrate.
    fn try_from(value: u32) -> (r: Result<Self, Self::Error>)
        ensures
            r == SerialBaudrate::from_value(value),
    {
        match value {
            1200 => Ok(SerialBaudrate::B1200),
            2400 => Ok(SerialBaudrate::B2400),
            4800 => Ok(SerialBaudrate::B4800),
            9600 => Ok(SerialBaudrate::B9600),
            19200 => Ok(SerialBaudrate::B19200),
            38400 => Ok(SerialBaudrate::B38400),
            57600 => Ok(SerialBaudrate::B57600),
            _ => Err(SerialBaudrateError::UnsupportedBaudrate),
        }
    }
}

impl TryFromSpecImpl<u32> for SerialBaudrate {
    open spec fn obeys_try_from_spec() -> bool {
        true
    }

    open spec fn try_from_spec(value: u32) -> Result<Self, SerialBaudrateError> {
        SerialBaudrate::from_value(value)
    }
}

/// Each baud rate is the number of bits per second in its name, and each
/// of those numbers reads back as that rate.
pub proof fn lemma_baudrate_values()
    ensures
        SerialBaudrate::B1200.spec_value() == 1200,
        SerialBaudrate::B2400.spec_value() == 2400,
        SerialBaudrate::B4800.spec_value() == 4800,
        SerialBaudrate::B9600.spec_value() == 9600,
        SerialBaudrate::B19200.spec_value() == 19200,
        SerialBaudrate::B38400.spec_value() == 38400,
        SerialBaudrate::B57600.spec_value() == 57600,
        SerialBaudrate::from_value(1200) == Ok::<SerialBaudrate, SerialBaudrateError>(SerialBaudrate::B1200),
        SerialBaudrate::from_value(2400) == Ok::<SerialBaudrate, SerialBaudrateError>(SerialBaudrate::B2400),
        SerialBaudrate::from_value(4800) == Ok::<SerialBaudrate, SerialBaudrateError>(SerialBaudrate::B4800),
        SerialBaudrate::from_value(9600) == Ok::<SerialBaudrate, SerialBaudrateError>(SerialBaudrate::B9600),
        SerialBaudrate::from_value(19200) == Ok::<SerialBaudrate, SerialBaudrateError>(SerialBaudrate::B19200),
        SerialBaudrate::from_value(38400) == Ok::<SerialBaudrate, SerialBaudrateError>(SerialBaudrate::B38400),
        SerialBaudrate::from_value(57600) == Ok::<SerialBaudrate, SerialBaudrateError>(SerialBaudrate::B57600),
{
}

/// A baud rate converts to its value and back; a value converts only to
/// the rate that has that value.
pub proof fn lemma_baudrate_value_roundtrip(b: SerialBaudrate, value: u32)
    ensures
        SerialBaudrate::from_value(b.spec_value()) == Ok::<SerialBaudrate, SerialBaudrateError>(b),
        SerialBaudrate::from_value(value) matches Ok(c) ==> c.spec_value() == value,
{
}

#[derive(Debug, Clone)]
pub struct RequestPackage {
    pub header: u8,
    pub monitor_id: u8,
    pub category: u8,
    /// Page
    pub code0: u8,
    /// Function
    pub code1: u8,
    pub length: u8,
    pub data_control: u8,
    pub data: Option<Vec<u8>>,
    pub checksum: u8,
}

impl RequestPackage {
    /// The same frame as a package of the current dialect.
    pub open spec fn as_dialect_package(self) -> FramePackage {
        FramePackage {
            header: self.header,
            monitor_id: self.monitor_id,
            category: self.category,
            code0: self.code0,
            code1: self.code1,
            length: self.length,
            data_control: self.data_control,
            data: self.data,
            checksum: self.checksum,
        }
    }

    /// The bytes of the frame in wire order.
    pub open spec fn frame(self) -> Seq<u8> {
        self.as_dialect_package().frame()
    }

    /// The frame that requests function `command_code` with `payload` from
    /// display `monitor_id`, laid out as in the current dialect.
    pub open spec fn is_request_for(self, monitor_id: u8, command_code: u8, payload: Seq<u8>) -> bool {
        self.as_dialect_package().is_request_for(monitor_id, command_code, payload)
    }

    /// Builds the frame for function `command_code` with the optional payload
    /// `data`. The length byte is the payload length truncated to a byte plus
    /// three, which must fit in a byte.
    pub fn new(monitor_id: u8, command_code: u8, data: &Option<Vec<u8>>) -> (r: Self)
        requires
            payload_view(*data).len() % 256 + 3 <= 255,
        ensures
            r.is_request_for(monitor_id, command_code, payload_view(*data)),
    {
        let package = FramePackage::new_raw(monitor_id, command_code, data);
        RequestPackage {
            header: package.header,
            monitor_id: package.monitor_id,
            category: package.category,
            code0: package.code0,
            code1: package.code1,
            length: package.length,
            data_control: package.data_control,
            data: package.data,
            checksum: package.checksum,
        }
    }
}

impl From<RequestPackage> for Vec<u8> {
    fn from(package: RequestPackage) -> (data: Self)
        ensures
            data@ == package.frame(),
    {
        let package = FramePackage {
            header: package.header,
            monitor_id: package.monitor_id,
            category: package.category,
            code0: package.code0,
            code1: package.code1,
            length: package.length,
            data_control: package.data_control,
            data: package.data,
            checksum: package.checksum,
        };
        Vec::<u8>::from(package)
    }
}

impl vstd::std_specs::convert::FromSpecImpl<RequestPackage> for Vec<u8> {
    open spec fn obeys_from_spec() -> bool {
        false
    }

    open spec fn from_spec(package: RequestPackage) -> Self {
        arbitrary()
    }
}

/// Every request frame checks out: the XOR of all its bytes, checksum
/// included, is zero. The function code follows the seven header bytes,
/// the payload follows the function code, and, for payloads shorter than
/// 256 bytes, the frame is six bytes longer than its length byte says.
pub proof fn lemma_request_frame(pkg: RequestPackage, monitor_id: u8, command_code: u8, payload: Seq<u8>)
    requires
        pkg.is_request_for(monitor_id, command_code, payload),
    ensures
        xor_all(pkg.frame()) == 0,
        pkg.frame().len() == payload.len() + 9,
        pkg.frame()[7] == command_code,
        pkg.frame().subrange(8, 8 + payload.len() as int) == payload,
        pkg.frame().last() == pkg.checksum,
        payload.len() < 256 ==> pkg.frame().len() == pkg.length + 6,
{
    dialect_lemma_request_frame(pkg.as_dialect_package(), monitor_id, command_code, payload);
}

/// Enum representing the different request functions for getting data from the monitor
#[derive(Debug, Clone, Copy, PartialEq, Eq, Structural)]
pub enum GetCommand {
    CommunicationControl,
    PlatformAndVersionLabels,
    PowerState,
    UserInputControl,
    PowerStateAtColdStart,
    CurrentSource,
    VideoParameters,
    ColorTemperature,
    ColorParameters,
    PictureFormat,
    Volume,
    AudioParameters,
    MiscellaneousInfo,
    SerialCode,
}

impl GetCommand {
    /// The function code that the display answers with this reading.
    pub open spec fn spec_command_code(self) -> u8 {
        match self {
            GetCommand::CommunicationControl => 0x00,
            GetCommand::PlatformAndVersionLabels => 0xa2,
            GetCommand::PowerState => 0x19,
            GetCommand::UserInputControl => 0x1d,
            GetCommand::PowerStateAtColdStart => 0xa4,
            GetCommand::CurrentSource => 0xad,
            GetCommand::VideoParameters => 0x33,
            GetCommand::ColorTemperature => 0x35,
            GetCommand::ColorParameters => 0x37,
            GetCommand::PictureFormat => 0x3b,
            GetCommand::Volume => 0x45,
            GetCommand::AudioParameters => 0x43,
            GetCommand::MiscellaneousInfo => 0x0f,
            GetCommand::SerialCode => 0x15,
        }
    }

    pub fn get_command_code(&self) -> (r: u8)
        ensures
            r == self.spec_command_code(),
    {
        match self {
            GetCommand::CommunicationControl => 0x00,
            GetCommand::PlatformAndVersionLabels => 0xa2,
            GetCommand::PowerState => 0x19,
            GetCommand::UserInputControl => 0x1d,
            GetCommand::PowerStateAtColdStart => 0xa4,
            GetCommand::CurrentSource => 0xad,
            GetCommand::VideoParameters => 0x33,
            GetCommand::ColorTemperature => 0x35,
            GetCommand::ColorParameters => 0x37,
            GetCommand::PictureFormat => 0x3b,
            GetCommand::Volume => 0x45,
            GetCommand::AudioParameters => 0x43,
            GetCommand::MiscellaneousInfo => 0x0f,
            GetCommand::SerialCode => 0x15,
        }
    }
}

/// Enum representing the different request functions for setting data on the monitor
#[derive(Debug, Clone, Copy, PartialEq, Eq, Structural)]
pub enum SetCommand {
    CommunicationControl,
    PowerState(common::PowerState),
    UserInputControl,
    PowerStateAtColdStart,
    InputSource,
    VideoParameters,
    ColorTemperature,
    ColorParameters,
    PictureFormat,
    Volume,
    VolumeLimits,
    AudioParameters,
    AutoAdjust,
}

/// The command named `command` with value `value`, as
/// [`SetCommand::from_str`] reads it: "power" takes the power state
/// "on" or "off", "input" takes any value; any other name is unknown.
pub open spec fn spec_set_command_from_str(command: Seq<char>, value: Seq<char>) -> Result<
    SetCommand,
    FunctionConversionError,
> {
    if command == "power"@ {
        if value == "on"@ {
            Ok(SetCommand::PowerState(common::PowerState::On))
        } else if value == "off"@ {
            Ok(SetCommand::PowerState(common::PowerState::Off))
        } else {
            Err(FunctionConversionError::InvalidValue(arbitrary()))
        }
    } else if command == "input"@ {
        Ok(SetCommand::InputSource)
    } else {
        Err(FunctionConversionError::UnknownCommand)
    }
}

impl SetCommand {
    /// The function code of the command.
    pub open spec fn spec_command_code(self) -> u8 {
        match self {
            SetCommand::CommunicationControl => 0x00,
            SetCommand::PowerState(_) => 0x18,
            SetCommand::UserInputControl => 0x1c,
            SetCommand::PowerStateAtColdStart => 0xa3,
            SetCommand::InputSource => 0xac,
            SetCommand::VideoParameters => 0x32,
            SetCommand::ColorTemperature => 0x34,
            SetCommand::ColorParameters => 0x36,
            SetCommand::PictureFormat => 0x3a,
            SetCommand::Volume => 0x44,
            SetCommand::VolumeLimits => 0xb8,
            SetCommand::AudioParameters => 0x42,
            SetCommand::AutoAdjust => 0x70,
        }
    }

    /// The payload of the command: the power state byte (0x01 off, 0x02 on)
    /// for `PowerState`, nothing for the others.
    pub open spec fn spec_payload_data(self) -> Option<Seq<u8>> {
        match self {
            SetCommand::PowerState(state) => Some(
                seq![
                    match state {
                        common::PowerState::Off => 0x01u8,
                        common::PowerState::On => 0x02u8,
                    },
                ],
            ),
            _ => None,
        }
    }

    #[must_use]
    /// Returns the command code associated with the request function
    pub fn get_command_code(&self) -> (r: u8)
        ensures
            r == self.spec_command_code(),
    {
        match self {
            SetCommand::CommunicationControl => 0x00,
            SetCommand::PowerState(_) => 0x18,
            SetCommand::UserInputControl => 0x1c,
            SetCommand::PowerStateAtColdStart => 0xa3,
            SetCommand::InputSource => 0xac,
            SetCommand::VideoParameters => 0x32,
            SetCommand::ColorTemperature => 0x34,
            SetCommand::ColorParameters => 0x36,
            SetCommand::PictureFormat => 0x3a,
            SetCommand::Volume => 0x44,
            SetCommand::VolumeLimits => 0xb8,
            SetCommand::AudioParameters => 0x42,
            SetCommand::AutoAdjust => 0x70,
        }
    }

    /// Reads a command from its name and value.
    ///
    /// # Errors
    /// `UnknownCommand` for a name other than "power" and "input";
    /// `InvalidValue` for a power state other than "on" and "off".
    pub fn from_str(command: &str, value: &str) -> (r: Result<Self, FunctionConversionError>)
        ensures
            r is Ok <==> spec_set_command_from_str(command@, value@) is Ok,
            r is Ok ==> r == spec_set_command_from_str(command@, value@),
            spec_set_command_from_str(command@, value@) == Err::<SetCommand,
                FunctionConversionError>(FunctionConversionError::UnknownCommand)
                ==> r == Err::<SetCommand, FunctionConversionError>(
                FunctionConversionError::UnknownCommand,
            ),
            spec_set_command_from_str(command@, value@) matches Err(
                FunctionConversionError::InvalidValue(_),
            ) ==> (r matches Err(FunctionConversionError::InvalidValue(m)) && m@
                == common::invalid_power_state_message(value@)),
    {
        proof {
            reveal_strlit("power");
            reveal_strlit("input");
            assert("power"@[0] != "input"@[0]);
        }
        if crate::text::str_eq(command, "power") {
            match common::PowerState::try_from(value) {
                Ok(state) => Ok(SetCommand::PowerState(state)),
                Err(e) => Err(e),
            }
        } else if crate::text::str_eq(command, "input") {
            // Placeholder for input source handling
            Ok(SetCommand::InputSource)
        } else {
            Err(FunctionConversionError::UnknownCommand)
        }
    }

    #[must_use]
    pub fn get_payload_data(&self) -> (r: Option<Vec<u8>>)
        ensures
            r is Some <==> self.spec_payload_data() is Some,
            r matches Some(d) ==> self.spec_payload_data() == Some(d@),
    {
        match self {
            SetCommand::PowerState(state) => Some(
                vec![
                    match state {
                        common::PowerState::Off => 0x01,
                        common::PowerState::On => 0x02,
                    },
                ],
            ),
            _ => None,
        }
    }
}

pub struct GetRequest {
    pub monitor_id: u8,
    pub command: GetCommand,
}

/// Builds the frame that sends `function` to display `monitor_id`.
pub fn construct_set_data_package(monitor_id: u8, function: SetCommand) -> (r: RequestPackage)
    ensures
        r.is_request_for(
            monitor_id,
            function.spec_command_code(),
            match function.spec_payload_data() {
                Some(p) => p,
                None => Seq::empty(),
            },
        ),
{
    let command_code = function.get_command_code();
    let data = function.get_payload_data();

    RequestPackage::new(monitor_id, command_code, &data)
}

pub enum RawResponseStatus<T> {
    Acknowledged(T),
    NotAcknowledged,
    NotAvailable,
}

pub type RawSetReponseStatus = RawResponseStatus<()>;

pub type RawGetResponseStatus<T> = RawResponseStatus<T>;

/// The function code of every reading, as the protocol fixes it; no two
/// readings share a code.
pub proof fn lemma_get_command_codes()
    ensures
        GetCommand::CommunicationControl.spec_command_code() == 0x00,
        GetCommand::PlatformAndVersionLabels.spec_command_code() == 0xa2,
        GetCommand::PowerState.spec_command_code() == 0x19,
        GetCommand::UserInputControl.spec_command_code() == 0x1d,
        GetCommand::PowerStateAtColdStart.spec_command_code() == 0xa4,
        GetCommand::CurrentSource.spec_command_code() == 0xad,
        GetCommand::VideoParameters.spec_command_code() == 0x33,
        GetCommand::ColorTemperature.spec_command_code() == 0x35,
        GetCommand::ColorParameters.spec_command_code() == 0x37,
        GetCommand::PictureFormat.spec_command_code() == 0x3b,
        GetCommand::Volume.spec_command_code() == 0x45,
        GetCommand::AudioParameters.spec_command_code() == 0x43,
        GetCommand::MiscellaneousInfo.spec_command_code() == 0x0f,
        GetCommand::SerialCode.spec_command_code() == 0x15,
        forall|a: GetCommand, b: GetCommand| a.spec_command_code() == b.spec_command_code() ==> a == b,
{
}

/// The function code of every set command, as the protocol fixes it, and
/// its payload: 0x01 for power off and 0x02 for power on, none for the
/// other commands.
pub proof fn lemma_set_command_codes_and_payloads()
    ensures
        SetCommand::CommunicationControl.spec_command_code() == 0x00,
        forall|p: common::PowerState| #[trigger] SetCommand::PowerState(p).spec_command_code() == 0x18,
        SetCommand::UserInputControl.spec_command_code() == 0x1c,
        SetCommand::PowerStateAtColdStart.spec_command_code() == 0xa3,
        SetCommand::InputSource.spec_command_code() == 0xac,
        SetCommand::VideoParameters.spec_command_code() == 0x32,
        SetCommand::ColorTemperature.spec_command_code() == 0x34,
        SetCommand::ColorParameters.spec_command_code() == 0x36,
        SetCommand::PictureFormat.spec_command_code() == 0x3a,
        SetCommand::Volume.spec_command_code() == 0x44,
        SetCommand::VolumeLimits.spec_command_code() == 0xb8,
        SetCommand::AudioParameters.spec_command_code() == 0x42,
        SetCommand::AutoAdjust.spec_command_code() == 0x70,
        SetCommand::PowerState(common::PowerState::Off).spec_payload_data() == Some(seq![0x01u8]),
        SetCommand::PowerState(common::PowerState::On).spec_payload_data() == Some(seq![0x02u8]),
        forall|c: SetCommand| !(c is PowerState) ==> #[trigger] c.spec_payload_data() is None,
{
}

} // verus!
