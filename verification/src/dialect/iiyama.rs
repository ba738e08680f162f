//! The iiyama dialect: request frames, the command trait and the
//! controller that queues requested settings.
use vstd::prelude::*;

use crate::checksum::{lemma_xor_all_concat, xor_all, xor_of};
use crate::connection::{
    replaced, ConnectionParameters, DataBits, FlowControl, Parity, SerialBaudrate,
    SerialConnectionParameters, StopBits, TcpConnectionParameters, UserConnectionSettings,
    DEFAULT_CONNECTION_TIMEOUT, DEFAULT_SERIAL_BAUDRATE,
};
use crate::controller::AddSettingsError;
use crate::text::str_eq;
use get_commands::GetCommand;
use set_commands::{
    lemma_audio_parameters_clip, lemma_video_parameters_clip, lemma_volume_clip,
    lemma_volume_limits_clip, AudioParameters, BlockedUserInput, ColorParameters,
    ColorTemperature, InputSource, PictureFormat, PowerState, PowerStateAtColdStart, SetCommand,
    VideoParameters, Volume, VolumeLimits,
};

pub mod get_commands;
pub mod set_commands;

verus! {

/// The baud rates an iiyama display supports.
pub const SUPPORTED_BAUD_RATES: [SerialBaudrate; 7] = [
    SerialBaudrate::B1200,
    SerialBaudrate::B2400,
    SerialBaudrate::B4800,
    SerialBaudrate::B9600,
    SerialBaudrate::B19200,
    SerialBaudrate::B38400,
    SerialBaudrate::B57600,
];

/// The baud rate used when the requested one is not supported.
pub const DEFAULT_BAUD_RATE: SerialBaudrate = SerialBaudrate::B9600;

/// The TCP port on which an iiyama display listens.
pub const TCP_PORT: u16 = 5000;

/// A command that can be sent to an iiyama display in a request frame.
pub trait IiyamaCommand {
    /// The function code of the command.
    spec fn spec_command_code(&self) -> u8;

    /// The payload bytes that follow the function code.
    spec fn spec_payload_data(&self) -> Option<Seq<u8>>;

    fn get_command_code(&self) -> (r: u8)
        ensures
            r == self.spec_command_code(),
    ;

    fn get_payload_data(&self) -> (r: Option<Vec<u8>>)
        ensures
            r is Some <==> self.spec_payload_data() is Some,
            r matches Some(d) ==> self.spec_payload_data() == Some(d@),
    ;
}

/// The bytes of an optional payload; none for `None`.
pub open spec fn payload_view(data: Option<Vec<u8>>) -> Seq<u8> {
    match data {
        Some(d) => d@,
        None => Seq::empty(),
    }
}

/// The leading byte of every request frame.
pub const HEADER: u8 = 0xa6;

/// The data-control byte of every request frame.
pub const DATA_CONTROL: u8 = 0x01;

#[derive(Debug, Clone)]
pub struct RequestPackage {
    pub header: u8,
    pub monitor_id: u8,
    pub category: u8,
    /// Page
    pub code0: u8,
    /// Function
    pub code1: u8,
    pub length: u8,
    pub data_control: u8,
    pub data: Option<Vec<u8>>,
    pub checksum: u8,
}

impl RequestPackage {
    /// The data bytes carried by the frame (function code and payload).
    pub open spec fn data_view(self) -> Seq<u8> {
        payload_view(self.data)
    }

    /// The bytes of the frame in wire order.
    pub open spec fn frame(self) -> Seq<u8> {
        seq![
            self.header,
            self.monitor_id,
            self.category,
            self.code0,
            self.code1,
            self.length,
            self.data_control,
        ] + self.data_view() + seq![self.checksum]
    }

    /// The frame that requests function `command_code` with `payload` from
    /// display `monitor_id`: the length byte counts the payload (modulo 256)
    /// plus three, the data are the function code followed by the payload,
    /// and the checksum is the XOR of header, monitor id, length, data
    /// control and all data bytes.
    pub open spec fn is_request_for(self, monitor_id: u8, command_code: u8, payload: Seq<u8>) -> bool {
        &&& self.header == HEADER
        &&& self.monitor_id == monitor_id
        &&& self.category == 0x00
        &&& self.code0 == 0x00
        &&& self.code1 == 0x00
        &&& self.length == payload.len() % 256 + 3
        &&& self.data_control == DATA_CONTROL
        &&& self.data is Some
        &&& self.data_view() == seq![command_code] + payload
        &&& self.checksum == HEADER ^ monitor_id ^ self.length ^ DATA_CONTROL ^ xor_all(
            self.data_view(),
        )
    }

    /// Builds the frame for function `command_code` with the optional payload
    /// `data`. The length byte is the payload length truncated to a byte plus
    /// three, which must fit in a byte.
    pub fn new_raw(monitor_id: u8, command_code: u8, data: &Option<Vec<u8>>) -> (r: Self)
        requires
            payload_view(*data).len() % 256 + 3 <= 255,
        ensures
            r.is_request_for(monitor_id, command_code, payload_view(*data)),
    {
        let payload_len: usize = match data {
            Some(d) => d.len(),
            None => 0,
        };
        let length: u8 = (payload_len % 256) as u8 + 3;

        let mut bytes: Vec<u8> = Vec::new();
        bytes.push(command_code);
        match data {
            Some(d) => {
                let mut i: usize = 0;
                while i < d.len()
                    invariant
                        i <= d@.len(),
                        bytes@ == seq![command_code] + d@.take(i as int),
                    decreases d@.len() - i,
                {
                    bytes.push(d[i]);
                    i = i + 1;
                    assert(d@.take(i as int) == d@.take(i as int - 1).push(d@[i as int - 1]));
                }
                assert(d@.take(d@.len() as int) == d@);
            },
            None => {
                assert(bytes@ == seq![command_code] + Seq::<u8>::empty());
            },
        }

        let checksum = HEADER ^ monitor_id ^ length ^ DATA_CONTROL ^ xor_of(bytes.as_slice());

        RequestPackage {
            header: HEADER,
            monitor_id,
            category: 0x00,  // Always(?) for iiyama
            code0: 0x00,
            code1: 0x00,
            length,
            data_control: DATA_CONTROL,
            data: Some(bytes),
            checksum,
        }
    }

    /// Builds the frame that sends `command` to display `monitor_id`.
    pub fn new<C: IiyamaCommand>(monitor_id: u8, command: &C) -> (r: Self)
        requires
            payload_view_of(command.spec_payload_data()).len() % 256 + 3 <= 255,
        ensures
            r.is_request_for(
                monitor_id,
                command.spec_command_code(),
                payload_view_of(command.spec_payload_data()),
            ),
    {
        let function_code = command.get_command_code();
        let data = command.get_payload_data();

        Self::new_raw(monitor_id, function_code, &data)
    }
}

/// The bytes of an optional payload given as a sequence; none for `None`.
pub open spec fn payload_view_of(data: Option<Seq<u8>>) -> Seq<u8> {
    match data {
        Some(d) => d,
        None => Seq::empty(),
    }
}

impl From<RequestPackage> for Vec<u8> {
    fn from(package: RequestPackage) -> (data: Self)
        ensures
            data@ == package.frame(),
    {
        let mut data = vec![
            package.header,
            package.monitor_id,
            package.category,
            package.code0,
            package.code1,
            package.length,
            package.data_control,
        ];
        if let Some(ref d) = package.data {
            let mut i: usize = 0;
            let ghost start = data@;
            while i < d.len()
                invariant
                    i <= d@.len(),
                    data@ == start + d@.take(i as int),
                decreases d@.len() - i,
            {
                data.push(d[i]);
                i = i + 1;
                assert(d@.take(i as int) == d@.take(i as int - 1).push(d@[i as int - 1]));
            }
            assert(d@.take(d@.len() as int) == d@);
        }
        data.push(package.checksum);
        data
    }
}

impl vstd::std_specs::convert::FromSpecImpl<RequestPackage> for Vec<u8> {
    open spec fn obeys_from_spec() -> bool {
        false
    }

    open spec fn from_spec(package: RequestPackage) -> Self {
        arbitrary()
    }
}

/// Every request frame checks out: the XOR of all its bytes, checksum
/// included, is zero. The function code follows the seven header bytes,
/// the payload follows the function code, and, for payloads shorter than
/// 256 bytes, the frame is six bytes longer than its length byte says.
pub proof fn lemma_request_frame(pkg: RequestPackage, monitor_id: u8, command_code: u8, payload: Seq<u8>)
    requires
        pkg.is_request_for(monitor_id, command_code, payload),
    ensures
        xor_all(pkg.frame()) == 0,
        pkg.frame().len() == payload.len() + 9,
        pkg.frame()[7] == command_code,
        pkg.frame().subrange(8, 8 + payload.len() as int) == payload,
        pkg.frame().last() == pkg.checksum,
        payload.len() < 256 ==> pkg.frame().len() == pkg.length + 6,
{
    let head = seq![
        pkg.header,
        pkg.monitor_id,
        pkg.category,
        pkg.code0,
        pkg.code1,
        pkg.length,
        pkg.data_control,
    ];
    let d = pkg.data_view();
    let c = seq![pkg.checksum];
    lemma_xor_all_concat(head + d, c);
    lemma_xor_all_concat(head, d);
    assert(c.drop_last() == Seq::<u8>::empty());
    assert(xor_all(c) == 0u8 ^ pkg.checksum) by {
        reveal_with_fuel(xor_all, 2);
    }
    assert(xor_all(head) == 0u8 ^ pkg.header ^ pkg.monitor_id ^ pkg.category ^ pkg.code0 ^ pkg.code1
        ^ pkg.length ^ pkg.data_control) by {
        reveal_with_fuel(xor_all, 8);
    }
    let h = pkg.header;
    let m = pkg.monitor_id;
    let l = pkg.length;
    let x = xor_all(d);
    let k = pkg.checksum;
    assert(h == 0xa6u8 && pkg.category == 0u8 && pkg.code0 == 0u8 && pkg.code1 == 0u8
        && pkg.data_control == 1u8);
    assert(k == h ^ m ^ l ^ 1u8 ^ x);
    assert(((0u8 ^ h ^ m ^ 0u8 ^ 0u8 ^ 0u8 ^ l ^ 1u8) ^ x) ^ (0u8 ^ k) == 0u8) by (bit_vector)
        requires
            k == h ^ m ^ l ^ 1u8 ^ x,
    ;
    assert(pkg.frame() == head + d + c);
    assert(pkg.frame().subrange(8, 8 + payload.len() as int) == payload);
}

/// A request frame is determined by the monitor id, function code and
/// payload it requests: two packages for the same request agree in every
/// byte. So the package that `RequestPackage::new` builds for a command is
/// the one that `RequestPackage::new_raw` builds for the command's code
/// and payload.
pub proof fn lemma_request_determined(
    p: RequestPackage,
    q: RequestPackage,
    monitor_id: u8,
    command_code: u8,
    payload: Seq<u8>,
)
    requires
        p.is_request_for(monitor_id, command_code, payload),
        q.is_request_for(monitor_id, command_code, payload),
    ensures
        p.header == q.header,
        p.monitor_id == q.monitor_id,
        p.category == q.category,
        p.code0 == q.code0,
        p.code1 == q.code1,
        p.length == q.length,
        p.data_control == q.data_control,
        p.data_view() == q.data_view(),
        p.checksum == q.checksum,
        p.frame() == q.frame(),
{
}

/// A setting that can be written to an iiyama display, by its name.
#[derive(Debug, Clone, Copy, PartialEq, Eq, Structural)]
pub enum WriteSetting {
    /// `power.state`
    PowerState,
    /// `power.onstart`
    PowerStateAtColdStart,
    /// `input.source`
    InputSource,
    /// `hardware.ir.block`
    IrRemoteControl,
    /// `hardware.keypad.block`
    KeypadControl,
    /// `picture.format`
    PictureFormat,
    /// `picture.color.temperature`
    ColorTemperature,
    /// `picture.video.parameters`
    VideoParameters,
    /// `picture.color.parameters`
    ColorParameters,
    /// `audio.volume`
    Volume,
    /// `audio.volume.limits`
    VolumeLimits,
    /// `audio.parameters`
    AudioParameters,
}

/// The typed value of a setting, as decoded from the user's request.
#[derive(Debug, Clone, Copy, PartialEq, Eq, Structural)]
pub enum SettingValue {
    PowerState(PowerState),
    PowerStateAtColdStart(PowerStateAtColdStart),
    InputSource(InputSource),
    BlockedUserInput(BlockedUserInput),
    PictureFormat(PictureFormat),
    ColorTemperature(ColorTemperature),
    VideoParameters(VideoParameters),
    ColorParameters(ColorParameters),
    Volume(Volume),
    VolumeLimits(VolumeLimits),
    AudioParameters(AudioParameters),
}

impl WriteSetting {
    /// The setting called `name`, if an iiyama display has one.
    pub open spec fn spec_from_name(name: Seq<char>) -> Option<WriteSetting> {
        if name == "power.state"@ {
            Some(WriteSetting::PowerState)
        } else if name == "power.onstart"@ {
            Some(WriteSetting::PowerStateAtColdStart)
        } else if name == "input.source"@ {
            Some(WriteSetting::InputSource)
        } else if name == "hardware.ir.block"@ {
            Some(WriteSetting::IrRemoteControl)
        } else if name == "hardware.keypad.block"@ {
            Some(WriteSetting::KeypadControl)
        } else if name == "picture.format"@ {
            Some(WriteSetting::PictureFormat)
        } else if name == "picture.color.temperature"@ {
            Some(WriteSetting::ColorTemperature)
        } else if name == "picture.video.parameters"@ {
            Some(WriteSetting::VideoParameters)
        } else if name == "picture.color.parameters"@ {
            Some(WriteSetting::ColorParameters)
        } else if name == "audio.volume"@ {
            Some(WriteSetting::Volume)
        } else if name == "audio.volume.limits"@ {
            Some(WriteSetting::VolumeLimits)
        } else if name == "audio.parameters"@ {
            Some(WriteSetting::AudioParameters)
        } else {
            None
        }
    }

    /// The setting called `name`, if an iiyama display has one.
    pub fn from_name(name: &str) -> (r: Option<WriteSetting>)
        ensures
            r == WriteSetting::spec_from_name(name@),
    {
        if str_eq(name, "power.state") {
            Some(WriteSetting::PowerState)
        } else if str_eq(name, "power.onstart") {
            Some(WriteSetting::PowerStateAtColdStart)
        } else if str_eq(name, "input.source") {
            Some(WriteSetting::InputSource)
        } else if str_eq(name, "hardware.ir.block") {
            Some(WriteSetting::IrRemoteControl)
        } else if str_eq(name, "hardware.keypad.block") {
            Some(WriteSetting::KeypadControl)
        } else if str_eq(name, "picture.format") {
            Some(WriteSetting::PictureFormat)
        } else if str_eq(name, "picture.color.temperature") {
            Some(WriteSetting::ColorTemperature)
        } else if str_eq(name, "picture.video.parameters") {
            Some(WriteSetting::VideoParameters)
        } else if str_eq(name, "picture.color.parameters") {
            Some(WriteSetting::ColorParameters)
        } else if str_eq(name, "audio.volume") {
            Some(WriteSetting::Volume)
        } else if str_eq(name, "audio.volume.limits") {
            Some(WriteSetting::VolumeLimits)
        } else if str_eq(name, "audio.parameters") {
            Some(WriteSetting::AudioParameters)
        } else {
            None
        }
    }

    /// What the value of this setting must be, as reported to the user.
    pub open spec fn spec_type_description(self) -> Seq<char> {
        match self {
            WriteSetting::PowerState => "Iiyama PowerState (see docs for details)"@,
            WriteSetting::PowerStateAtColdStart => "Iiyama PowerStateAtColdStart (see docs for details)"@,
            WriteSetting::InputSource => "Iiyama InputSource (see docs for details)"@,
            WriteSetting::IrRemoteControl => "Iiyama BlockedUserInput (see docs for details)"@,
            WriteSetting::KeypadControl => "Iiyama BlockedUserInput (see docs for details)"@,
            WriteSetting::PictureFormat => "Iiyama PictureFormat (see docs for details)"@,
            WriteSetting::ColorTemperature => "Iiyama ColorTemperature (see docs for details)"@,
            WriteSetting::VideoParameters => "Iiyama VideoParameters (see docs for details)"@,
            WriteSetting::ColorParameters => "Iiyama ColorParameters (see docs for details)"@,
            WriteSetting::Volume => "Iiyama Volume (see docs for details)"@,
            WriteSetting::VolumeLimits => "Iiyama VolumeLimits (see docs for details)"@,
            WriteSetting::AudioParameters => "Iiyama AudioParameters (see docs for details)"@,
        }
    }

    /// The command that writes `value` to this setting, with the levels
    /// clipped to their range; none when the value has another type.
    pub open spec fn command_for(self, value: SettingValue) -> Option<SetCommand> {
        match (self, value) {
            (WriteSetting::PowerState, SettingValue::PowerState(v)) => Some(SetCommand::PowerState(v)),
            (WriteSetting::PowerStateAtColdStart, SettingValue::PowerStateAtColdStart(v)) => Some(SetCommand::PowerStateAtColdStart(v)),
            (WriteSetting::InputSource, SettingValue::InputSource(v)) => Some(SetCommand::InputSource(v)),
            (WriteSetting::IrRemoteControl, SettingValue::BlockedUserInput(v)) => Some(SetCommand::IrRemoteControl(v)),
            (WriteSetting::KeypadControl, SettingValue::BlockedUserInput(v)) => Some(SetCommand::KeypadControl(v)),
            (WriteSetting::PictureFormat, SettingValue::PictureFormat(v)) => Some(SetCommand::PictureFormat(v)),
            (WriteSetting::ColorTemperature, SettingValue::ColorTemperature(v)) => Some(SetCommand::ColorTemperature(v)),
            (WriteSetting::VideoParameters, SettingValue::VideoParameters(v)) => Some(SetCommand::VideoParameters(v.clipped())),
            (WriteSetting::ColorParameters, SettingValue::ColorParameters(v)) => Some(SetCommand::ColorParameters(v)),
            (WriteSetting::Volume, SettingValue::Volume(v)) => Some(SetCommand::Volume(v.clipped())),
            (WriteSetting::VolumeLimits, SettingValue::VolumeLimits(v)) => Some(SetCommand::VolumeLimits(v.clipped())),
            (WriteSetting::AudioParameters, SettingValue::AudioParameters(v)) => Some(SetCommand::AudioParameters(v.clipped())),
            _ => None,
        }
    }

    /// The command queued for `value` (none when there is no value or it
    /// has another type).
    pub open spec fn accepted_command(self, value: Option<SettingValue>) -> Option<SetCommand> {
        match value {
            Some(v) => self.command_for(v),
            None => None,
        }
    }
}

/// Every command in `commands` has its levels in range.
pub open spec fn all_clipped(commands: Seq<SetCommand>) -> bool {
    forall|i: int| 0 <= i < commands.len() ==> #[trigger] commands[i].is_clipped()
}

/// The settings requested for an iiyama display, queued in the order in
/// which they were added. Every queued write command has its levels in
/// range.
#[derive(Debug)]
pub struct IiyamaController {
    write_setting_requests: Vec<SetCommand>,
    read_setting_requests: Vec<GetCommand>,
}

impl IiyamaController {
    /// The queued write commands, oldest first.
    pub closed spec fn queued_writes(&self) -> Seq<SetCommand> {
        self.write_setting_requests@
    }

    /// The queued readings, oldest first.
    pub closed spec fn queued_reads(&self) -> Seq<GetCommand> {
        self.read_setting_requests@
    }

    #[verifier::type_invariant]
    spec fn wf(&self) -> bool {
        all_clipped(self.write_setting_requests@)
    }

    /// A controller with empty queues.
    pub fn new() -> (r: Self)
        ensures
            r.queued_writes() == Seq::<SetCommand>::empty(),
            r.queued_reads() == Seq::<GetCommand>::empty(),
    {
        Self { write_setting_requests: Vec::new(), read_setting_requests: Vec::new() }
    }

    /// The queued write commands, oldest first; all have their levels in range.
    pub fn write_setting_requests(&self) -> (r: &Vec<SetCommand>)
        ensures
            r@ == self.queued_writes(),
            all_clipped(r@),
    {
        proof {
            use_type_invariant(self);
        }
        &self.write_setting_requests
    }

    /// The queued readings, oldest first.
    pub fn read_setting_requests(&self) -> (r: &Vec<GetCommand>)
        ensures
            r@ == self.queued_reads(),
    {
        &self.read_setting_requests
    }

    /// The serial parameters to use with an iiyama display: the given ones,
    /// with an unsupported baud rate replaced by 9600 baud, and 8 data bits,
    /// 1 stop bit, no parity and no flow control forced.
    pub fn compatible_serial_parameters(settings: &SerialConnectionParameters) -> (r:
        SerialConnectionParameters)
        ensures
            r.port@ == settings.port@,
            r.baud_rate == (if SUPPORTED_BAUD_RATES@.contains(settings.baud_rate) {
                settings.baud_rate
            } else {
                DEFAULT_BAUD_RATE
            }),
            r.data_bits == Some(DataBits::Eight),
            r.stop_bits == Some(StopBits::One),
            r.parity_bit == Some(Parity::NoParity),
            r.flow_control == Some(FlowControl::NoFlowControl),
            r.timeout == settings.timeout,
    {
        let mut compatible_settings = SerialConnectionParameters {
            port: settings.port.clone(),
            baud_rate: settings.baud_rate,
            data_bits: settings.data_bits,
            stop_bits: settings.stop_bits,
            parity_bit: settings.parity_bit,
            flow_control: settings.flow_control,
            timeout: settings.timeout,
        };

        // Fall back to the default baud rate if the provided one is not supported
        if !compatible_settings.is_valid_baud_rate(SUPPORTED_BAUD_RATES.as_slice()) {
            compatible_settings.force(None, Some(DEFAULT_BAUD_RATE), None, None, None, None, None);
        }
        // Force 8 data bits, 1 stop bit, no parity, no flow control

        compatible_settings.force(
            None,
            None,
            Some(Some(DataBits::Eight)),
            Some(Some(StopBits::One)),
            Some(Some(Parity::NoParity)),
            Some(Some(FlowControl::NoFlowControl)),
            None,
        );
        compatible_settings
    }

    /// The TCP parameters to use with an iiyama display: the given ones,
    /// with the port forced to 5000.
    pub fn compatible_tcp_parameters(settings: &TcpConnectionParameters) -> (r:
        TcpConnectionParameters)
        ensures
            r.ip == settings.ip,
            r.port == TCP_PORT,
            r.timeout == settings.timeout,
    {
        let mut compatible_settings = *settings;
        compatible_settings.force(None, Some(TCP_PORT), None);
        compatible_settings
    }

    /// The connection to open to an iiyama display for the user's
    /// `connection_settings`: the serial line or TCP address given, with
    /// defaults filled in (9600 baud, 10 s timeout) and the parameters the
    /// display needs forced (see `compatible_serial_parameters` and
    /// `compatible_tcp_parameters`).
    pub fn connection_parameters(connection_settings: UserConnectionSettings) -> (r:
        ConnectionParameters)
        ensures
            match connection_settings {
                UserConnectionSettings::Serial { port, baud_rate, timeout } => {
                    let requested = replaced(DEFAULT_SERIAL_BAUDRATE, baud_rate);
                    &&& r matches ConnectionParameters::Serial(p)
                    &&& p.port@ == port@
                    &&& p.baud_rate == (if SUPPORTED_BAUD_RATES@.contains(requested) {
                        requested
                    } else {
                        DEFAULT_BAUD_RATE
                    })
                    &&& p.data_bits == Some(DataBits::Eight)
                    &&& p.stop_bits == Some(StopBits::One)
                    &&& p.parity_bit == Some(Parity::NoParity)
                    &&& p.flow_control == Some(FlowControl::NoFlowControl)
                    &&& p.timeout == replaced(DEFAULT_CONNECTION_TIMEOUT, timeout)
                },
                UserConnectionSettings::Tcp { ip, port, timeout } => {
                    &&& r matches ConnectionParameters::Tcp(p)
                    &&& p.ip == ip
                    &&& p.port == TCP_PORT
                    &&& p.timeout == replaced(DEFAULT_CONNECTION_TIMEOUT, timeout)
                },
            },
    {
        match connection_settings {
            UserConnectionSettings::Serial { port, baud_rate, timeout } => {
                let requested = SerialConnectionParameters::new(
                    Some(port),
                    baud_rate,
                    None,
                    None,
                    None,
                    None,
                    timeout,
                );
                ConnectionParameters::Serial(Self::compatible_serial_parameters(&requested))
            },
            UserConnectionSettings::Tcp { ip, port, timeout } => {
                let requested = TcpConnectionParameters::new(ip, port, timeout);
                ConnectionParameters::Tcp(Self::compatible_tcp_parameters(&requested))
            },
        }
    }

    /// Whether `connection_settings` ask for a serial baud rate that an
    /// iiyama display does not support, so that the default rate is used
    /// instead (see `connection_parameters`).
    pub fn falls_back_to_default_baud_rate(connection_settings: &UserConnectionSettings) -> (r:
        bool)
        ensures
            r == (connection_settings matches UserConnectionSettings::Serial { baud_rate, .. }
                && !SUPPORTED_BAUD_RATES@.contains(replaced(DEFAULT_SERIAL_BAUDRATE, *baud_rate))),
    {
        match connection_settings {
            UserConnectionSettings::Serial { baud_rate, .. } => {
                let requested = match baud_rate {
                    Some(b) => *b,
                    None => DEFAULT_SERIAL_BAUDRATE,
                };
                let mut i: usize = 0;
                while i < SUPPORTED_BAUD_RATES.len()
                    invariant
                        i <= SUPPORTED_BAUD_RATES@.len(),
                        forall|j: int| 0 <= j < i ==> SUPPORTED_BAUD_RATES@[j] != requested,
                    decreases SUPPORTED_BAUD_RATES@.len() - i,
                {
                    if SUPPORTED_BAUD_RATES[i] == requested {
                        return false;
                    }
                    i = i + 1;
                }
                true
            },
            UserConnectionSettings::Tcp { .. } => false,
        }
    }

    /// Queues the write of setting `name` with the decoded `value` (none if
    /// the user's value could not be decoded as the setting's type).
    /// Levels are clipped to their range before queueing.
    ///
    /// # Errors
    /// `UnknownSetting` if no setting has that name; `InvalidType`, with
    /// the expected type, if there is no value or it has another type.
    pub fn add_write_setting_request(&mut self, name: &str, value: Option<SettingValue>) -> (r:
        Result<(), AddSettingsError>)
        ensures
            final(self).queued_reads() == old(self).queued_reads(),
            WriteSetting::spec_from_name(name@) is None ==> {
                &&& r == Err::<(), AddSettingsError>(AddSettingsError::UnknownSetting)
                &&& final(self).queued_writes() == old(self).queued_writes()
            },
            WriteSetting::spec_from_name(name@) matches Some(ws) ==> match ws.accepted_command(
                value,
            ) {
                Some(command) => {
                    &&& r is Ok
                    &&& final(self).queued_writes() == old(self).queued_writes().push(command)
                },
                None => {
                    &&& r matches Err(AddSettingsError::InvalidType(d))
                    &&& d@ == ws.spec_type_description()
                    &&& final(self).queued_writes() == old(self).queued_writes()
                },
            },
            all_clipped(final(self).queued_writes()),
    {
        proof {
            use_type_invariant(&*self);
        }
        let setting = match WriteSetting::from_name(name) {
            Some(s) => s,
            None => return Err(AddSettingsError::UnknownSetting),
        };
        let ghost old_queue = self.write_setting_requests@;
        let command: Option<SetCommand> = match setting {
            WriteSetting::PowerState => match value {
                Some(SettingValue::PowerState(v)) => {
                    Some(SetCommand::PowerState(v))
                },
                _ => None,
            },
            WriteSetting::PowerStateAtColdStart => match value {
                Some(SettingValue::PowerStateAtColdStart(v)) => {
                    Some(SetCommand::PowerStateAtColdStart(v))
                },
                _ => None,
            },
            WriteSetting::InputSource => match value {
                Some(SettingValue::InputSource(v)) => {
                    Some(SetCommand::InputSource(v))
                },
                _ => None,
            },
            WriteSetting::IrRemoteControl => match value {
                Some(SettingValue::BlockedUserInput(v)) => {
                    Some(SetCommand::IrRemoteControl(v))
                },
                _ => None,
            },
            WriteSetting::KeypadControl => match value {
                Some(SettingValue::BlockedUserInput(v)) => {
                    Some(SetCommand::KeypadControl(v))
                },
                _ => None,
            },
            WriteSetting::PictureFormat => match value {
                Some(SettingValue::PictureFormat(v)) => {
                    Some(SetCommand::PictureFormat(v))
                },
                _ => None,
            },
            WriteSetting::ColorTemperature => match value {
                Some(SettingValue::ColorTemperature(v)) => {
                    Some(SetCommand::ColorTemperature(v))
                },
                _ => None,
            },
            WriteSetting::VideoParameters => match value {
                Some(SettingValue::VideoParameters(v)) => {
                    let mut v = v;
                    proof {
                        lemma_video_parameters_clip(v);
                    }
                    v.clip_values();
                    Some(SetCommand::VideoParameters(v))
                },
                _ => None,
            },
            WriteSetting::ColorParameters => match value {
                Some(SettingValue::ColorParameters(v)) => {
                    Some(SetCommand::ColorParameters(v))
                },
                _ => None,
            },
            WriteSetting::Volume => match value {
                Some(SettingValue::Volume(v)) => {
                    let mut v = v;
                    proof {
                        lemma_volume_clip(v);
                    }
                    v.clip_values();
                    Some(SetCommand::Volume(v))
                },
                _ => None,
            },
            WriteSetting::VolumeLimits => match value {
                Some(SettingValue::VolumeLimits(v)) => {
                    let mut v = v;
                    proof {
                        lemma_volume_limits_clip(v);
                    }
                    v.clip_values();
                    Some(SetCommand::VolumeLimits(v))
                },
                _ => None,
            },
            WriteSetting::AudioParameters => match value {
                Some(SettingValue::AudioParameters(v)) => {
                    let mut v = v;
                    proof {
                        lemma_audio_parameters_clip(v);
                    }
                    v.clip_values();
                    Some(SetCommand::AudioParameters(v))
                },
                _ => None,
            },
        };
        match command {
            Some(command) => {
                let mut queue: Vec<SetCommand> = Vec::new();
                std::mem::swap(&mut queue, &mut self.write_setting_requests);
                queue.push(command);
                assert(queue@[old_queue.len() as int] == command);
                assert(all_clipped(queue@));
                self.write_setting_requests = queue;
                Ok(())
            },
            None => Err(AddSettingsError::InvalidType(setting.type_description())),
        }
    }
}

impl WriteSetting {
    /// What the value of this setting must be, as reported to the user.
    pub fn type_description(self) -> (r: &'static str)
        ensures
            r@ == self.spec_type_description(),
    {
        match self {
            WriteSetting::PowerState => "Iiyama PowerState (see docs for details)",
            WriteSetting::PowerStateAtColdStart => "Iiyama PowerStateAtColdStart (see docs for details)",
            WriteSetting::InputSource => "Iiyama InputSource (see docs for details)",
            WriteSetting::IrRemoteControl => "Iiyama BlockedUserInput (see docs for details)",
            WriteSetting::KeypadControl => "Iiyama BlockedUserInput (see docs for details)",
            WriteSetting::PictureFormat => "Iiyama PictureFormat (see docs for details)",
            WriteSetting::ColorTemperature => "Iiyama ColorTemperature (see docs for details)",
            WriteSetting::VideoParameters => "Iiyama VideoParameters (see docs for details)",
            WriteSetting::ColorParameters => "Iiyama ColorParameters (see docs for details)",
            WriteSetting::Volume => "Iiyama Volume (see docs for details)",
            WriteSetting::VolumeLimits => "Iiyama VolumeLimits (see docs for details)",
            WriteSetting::AudioParameters => "Iiyama AudioParameters (see docs for details)",
        }
    }
}

/// How a display answered a request: acknowledged (with the data read),
/// not acknowledged, or not available.
pub enum RawResponseStatus<T> {
    Acknowledged(T),
    NotAcknowledged,
    NotAvailable,
}

pub type RawSetResponseStatus = RawResponseStatus<()>;

pub type RawGetResponseStatus<T> = RawResponseStatus<T>;

/// An iiyama display supports every baud rate, so the serial parameters
/// chosen for it keep the requested rate.
pub proof fn lemma_all_baud_rates_supported(b: SerialBaudrate)
    ensures
        SUPPORTED_BAUD_RATES@.contains(b),
{
    let i: int = match b {
        SerialBaudrate::B1200 => 0,
        SerialBaudrate::B2400 => 1,
        SerialBaudrate::B4800 => 2,
        SerialBaudrate::B9600 => 3,
        SerialBaudrate::B19200 => 4,
        SerialBaudrate::B38400 => 5,
        SerialBaudrate::B57600 => 6,
    };
    assert(SUPPORTED_BAUD_RATES@[i] == b);
}

/// The payload of every set command has at most seven bytes, so its frame
/// can always be built, and the frame's length byte is the payload length
/// plus three.
pub proof fn lemma_set_command_payload_fits(command: SetCommand)
    ensures
        command.payload_of().len() <= 7,
        payload_view_of(command.spec_payload_data()) == command.payload_of(),
        payload_view_of(command.spec_payload_data()).len() % 256 + 3 <= 255,
{
}

/// What is queued for each setting: the value itself, unchanged, for the
/// power state, cold-start behaviour, input source, both input locks
/// (the infrared remote and the keypad), picture format, colour
/// temperature and colour parameters (gains and offsets keep their full
/// range 0-255); the value with its levels clipped to 0-100 for video
/// parameters, volume, volume limits and audio parameters. A setting takes
/// a value of its own type only.
pub proof fn lemma_queued_command_for_each_setting()
    ensures
        forall|v: PowerState| #[trigger] WriteSetting::PowerState.command_for(SettingValue::PowerState(v))
            == Some(SetCommand::PowerState(v)),
        forall|v: PowerStateAtColdStart| #[trigger] WriteSetting::PowerStateAtColdStart.command_for(
            SettingValue::PowerStateAtColdStart(v),
        ) == Some(SetCommand::PowerStateAtColdStart(v)),
        forall|v: InputSource| #[trigger] WriteSetting::InputSource.command_for(SettingValue::InputSource(v))
            == Some(SetCommand::InputSource(v)),
        forall|v: BlockedUserInput| #[trigger] WriteSetting::IrRemoteControl.command_for(
            SettingValue::BlockedUserInput(v),
        ) == Some(SetCommand::IrRemoteControl(v)),
        forall|v: BlockedUserInput| #[trigger] WriteSetting::KeypadControl.command_for(
            SettingValue::BlockedUserInput(v),
        ) == Some(SetCommand::KeypadControl(v)),
        forall|v: PictureFormat| #[trigger] WriteSetting::PictureFormat.command_for(
            SettingValue::PictureFormat(v),
        ) == Some(SetCommand::PictureFormat(v)),
        forall|v: ColorTemperature| #[trigger] WriteSetting::ColorTemperature.command_for(
            SettingValue::ColorTemperature(v),
        ) == Some(SetCommand::ColorTemperature(v)),
        forall|v: ColorParameters| #[trigger] WriteSetting::ColorParameters.command_for(
            SettingValue::ColorParameters(v),
        ) == Some(SetCommand::ColorParameters(v)),
        forall|v: VideoParameters| #[trigger] WriteSetting::VideoParameters.command_for(
            SettingValue::VideoParameters(v),
        ) == Some(SetCommand::VideoParameters(v.clipped())),
        forall|v: Volume| #[trigger] WriteSetting::Volume.command_for(SettingValue::Volume(v))
            == Some(SetCommand::Volume(v.clipped())),
        forall|v: VolumeLimits| #[trigger] WriteSetting::VolumeLimits.command_for(
            SettingValue::VolumeLimits(v),
        ) == Some(SetCommand::VolumeLimits(v.clipped())),
        forall|v: AudioParameters| #[trigger] WriteSetting::AudioParameters.command_for(
            SettingValue::AudioParameters(v),
        ) == Some(SetCommand::AudioParameters(v.clipped())),
        forall|v: SettingValue| #[trigger] WriteSetting::PowerState.command_for(v) is Some
            <==> v is PowerState,
        forall|v: SettingValue| #[trigger] WriteSetting::PowerStateAtColdStart.command_for(v) is Some
            <==> v is PowerStateAtColdStart,
        forall|v: SettingValue| #[trigger] WriteSetting::InputSource.command_for(v) is Some
            <==> v is InputSource,
        forall|v: SettingValue| #[trigger] WriteSetting::IrRemoteControl.command_for(v) is Some
            <==> v is BlockedUserInput,
        forall|v: SettingValue| #[trigger] WriteSetting::KeypadControl.command_for(v) is Some
            <==> v is BlockedUserInput,
        forall|v: SettingValue| #[trigger] WriteSetting::PictureFormat.command_for(v) is Some
            <==> v is PictureFormat,
        forall|v: SettingValue| #[trigger] WriteSetting::ColorTemperature.command_for(v) is Some
            <==> v is ColorTemperature,
        forall|v: SettingValue| #[trigger] WriteSetting::ColorParameters.command_for(v) is Some
            <==> v is ColorParameters,
        forall|v: SettingValue| #[trigger] WriteSetting::VideoParameters.command_for(v) is Some
            <==> v is VideoParameters,
        forall|v: SettingValue| #[trigger] WriteSetting::Volume.command_for(v) is Some <==> v is Volume,
        forall|v: SettingValue| #[trigger] WriteSetting::VolumeLimits.command_for(v) is Some
            <==> v is VolumeLimits,
        forall|v: SettingValue| #[trigger] WriteSetting::AudioParameters.command_for(v) is Some
            <==> v is AudioParameters,
{
}

/// The fixed bytes of every request frame: it starts with 0xa6, then the
/// monitor id, three zero bytes (category, page, function) and the length
/// byte, then 0x01; and its checksum is the XOR of 0xa6, the monitor id,
/// the length byte, 0x01 and every data byte.
pub proof fn lemma_request_frame_constants(
    pkg: RequestPackage,
    monitor_id: u8,
    command_code: u8,
    payload: Seq<u8>,
)
    requires
        pkg.is_request_for(monitor_id, command_code, payload),
    ensures
        pkg.frame()[0] == 0xa6,
        pkg.frame()[1] == monitor_id,
        pkg.frame()[2] == 0 && pkg.frame()[3] == 0 && pkg.frame()[4] == 0,
        pkg.frame()[5] == pkg.length,
        pkg.frame()[6] == 0x01,
        pkg.checksum == 0xa6u8 ^ monitor_id ^ pkg.length ^ 0x01u8 ^ xor_all(
            seq![command_code] + payload,
        ),
        payload.len() < 253 ==> pkg.length == payload.len() + 3,
{
}

} // verus!
