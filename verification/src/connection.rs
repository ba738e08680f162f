//! The parameters of the low level connection to a display: a serial
//! (RS-232) line or a TCP stream. Opening the connection is left to the
//! caller; this module decides the parameters.
use vstd::prelude::*;

use vstd::std_specs::convert::TryFromSpecImpl;

verus! {

/// Connection timeout, in milliseconds, when none is given (10 s).
pub const DEFAULT_CONNECTION_TIMEOUT: u64 = 10_000;

/// Serial line used when none is given (outside Windows; see
/// `SerialConnectionParameters::new_with_default_port`).
pub const DEFAULT_SERIAL_PORT: &'static str = "/dev/ttyUSB0";

#[derive(Debug, Clone, Copy, PartialEq, Eq, Structural)]
pub enum SerialBaudrate {
    B1200,
    B2400,
    B4800,
    B9600,
    B19200,
    B38400,
    B57600,
}

/// Baud rate used when none is given.
pub const DEFAULT_SERIAL_BAUDRATE: SerialBaudrate = SerialBaudrate::B9600;

impl SerialBaudrate {
    /// The rate in bits per second.
    pub open spec fn spec_value(self) -> u32 {
        match self {
            SerialBaudrate::B1200 => 1200,
            SerialBaudrate::B2400 => 2400,
            SerialBaudrate::B4800 => 4800,
            SerialBaudrate::B9600 => 9600,
            SerialBaudrate::B19200 => 19200,
            SerialBaudrate::B38400 => 38400,
            SerialBaudrate::B57600 => 57600,
        }
    }

    /// The rate in bits per second.
    pub fn value(self) -> (r: u32)
        ensures
            r == self.spec_value(),
    {
        match self {
            SerialBaudrate::B1200 => 1200,
            SerialBaudrate::B2400 => 2400,
            SerialBaudrate::B4800 => 4800,
            SerialBaudrate::B9600 => 9600,
            SerialBaudrate::B19200 => 19200,
            SerialBaudrate::B38400 => 38400,
            SerialBaudrate::B57600 => 57600,
        }
    }

    /// The supported rate of `value` bits per second, or the error that
    /// names the unsupported value.
    pub open spec fn from_value(value: u32) -> Result<SerialBaudrate, SerialBaudrateError> {
        if value == 1200 {
            Ok(SerialBaudrate::B1200)
        } else if value == 2400 {
            Ok(SerialBaudrate::B2400)
        } else if value == 4800 {
            Ok(SerialBaudrate::B4800)
        } else if value == 9600 {
            Ok(SerialBaudrate::B9600)
        } else if value == 19200 {
            Ok(SerialBaudrate::B19200)
        } else if value == 38400 {
            Ok(SerialBaudrate::B38400)
        } else if value == 57600 {
            Ok(SerialBaudrate::B57600)
        } else {
            Err(SerialBaudrateError::UnsupportedBaudrate(value))
        }
    }
}

impl Default for SerialBaudrate {
    fn default() -> (r: Self)
        ensures
            r == SerialBaudrate::B9600,
    {
        SerialBaudrate::B9600
    }
}

#[derive(Debug, Clone, Copy, PartialEq, Eq, Structural)]
pub enum SerialBaudrateError {
    UnsupportedBaudrate(u32),
}

impl TryFrom<u32> for SerialBaudrate {
    type Error = SerialBaudrateError;

    /// Try to convert a u32 value into a [`SerialBaudrate`]
    ///
    /// # Errors
    /// Returns [`SerialBaudrateError::UnsupportedBaudrate`]
    /// if the value doesn't match a supported baudrate.
    fn try_from(value: u32) -> (r: Result<Self, Self::Error>)
        ensures
            r == SerialBaudrate::from_value(value),
    {
        match value {
            1200 => Ok(SerialBaudrate::B1200),
            2400 => Ok(SerialBaudrate::B2400),
            4800 => Ok(SerialBaudrate::B4800),
            9600 => Ok(SerialBaudrate::B9600),
            19200 => Ok(SerialBaudrate::B19200),
            38400 => Ok(SerialBaudrate::B38400),
            57600 => Ok(SerialBaudrate::B57600),
            _ => Err(SerialBaudrateError::UnsupportedBaudrate(value)),
        }
    }
}

impl TryFromSpecImpl<u32> for SerialBaudrate {
    open spec fn obeys_try_from_spec() -> bool {
        true
    }

    open spec fn try_from_spec(value: u32) -> Result<Self, SerialBaudrateError> {
        SerialBaudrate::from_value(value)
    }
}

/// Each baud rate is the number of bits per second in its name, and each
/// of those numbers reads back as that rate.
pub proof fn lemma_baudrate_values()
    ensures
        SerialBaudrate::B1200.spec_value() == 1200,
        SerialBaudrate::B2400.spec_value() == 2400,
        SerialBaudrate::B4800.spec_value() == 4800,
        SerialBaudrate::B9600.spec_value() == 9600,
        SerialBaudrate::B19200.spec_value() == 19200,
        SerialBaudrate::B38400.spec_value() == 38400,
        SerialBaudrate::B57600.spec_value() == 57600,
        SerialBaudrate::from_value(1200) == Ok::<SerialBaudrate, SerialBaudrateError>(SerialBaudrate::B1200),
        SerialBaudrate::from_value(2400) == Ok::<SerialBaudrate, SerialBaudrateError>(SerialBaudrate::B2400),
        SerialBaudrate::from_value(4800) == Ok::<SerialBaudrate, SerialBaudrateError>(SerialBaudrate::B4800),
        SerialBaudrate::from_value(9600) == Ok::<SerialBaudrate, SerialBaudrateError>(SerialBaudrate::B9600),
        SerialBaudrate::from_value(19200) == Ok::<SerialBaudrate, SerialBaudrateError>(SerialBaudrate::B19200),
        SerialBaudrate::from_value(38400) == Ok::<SerialBaudrate, SerialBaudrateError>(SerialBaudrate::B38400),
        SerialBaudrate::from_value(57600) == Ok::<SerialBaudrate, SerialBaudrateError>(SerialBaudrate::B57600),
{
}

/// A baud rate converts to its value and back; a value converts only to
/// the rate that has that value.
pub proof fn lemma_baudrate_value_roundtrip(b: SerialBaudrate, value: u32)
    ensures
        SerialBaudrate::from_value(b.spec_value()) == Ok::<SerialBaudrate, SerialBaudrateError>(b),
        SerialBaudrate::from_value(value) matches Ok(c) ==> c.spec_value() == value,
        SerialBaudrate::from_value(value) is Err <==> (forall|c: SerialBaudrate|
            c.spec_value() != value),
{
    if SerialBaudrate::from_value(value) is Err {
        assert forall|c: SerialBaudrate| c.spec_value() != value by {
            match c {
                _ => {},
            }
        }
    } else {
        let c = SerialBaudrate::from_value(value)->Ok_0;
        assert(c.spec_value() == value);
    }
}

/// Number of data bits per character on a serial line.
#[derive(Debug, Clone, Copy, PartialEq, Eq, Structural)]
pub enum DataBits {
    Five,
    Six,
    Seven,
    Eight,
}

/// Number of stop bits on a serial line.
#[derive(Debug, Clone, Copy, PartialEq, Eq, Structural)]
pub enum StopBits {
    One,
    Two,
}

/// Parity checking mode on a serial line.
#[derive(Debug, Clone, Copy, PartialEq, Eq, Structural)]
pub enum Parity {
    NoParity,
    Odd,
    Even,
}

/// Flow control mode on a serial line.
#[derive(Debug, Clone, Copy, PartialEq, Eq, Structural)]
pub enum FlowControl {
    NoFlowControl,
    Software,
    Hardware,
}

/// An IP address, by its octets in network order.
#[derive(Debug, Clone, Copy, PartialEq, Eq)]
pub enum IpAddress {
    V4([u8; 4]),
    V6([u8; 16]),
}

/// The low level settings for the actual connection to the display.
/// Timeouts are in milliseconds.
#[derive(Debug, Clone)]
#[allow(inconsistent_fields)]
pub enum UserConnectionSettings {
    Serial { port: String, baud_rate: Option<SerialBaudrate>, timeout: Option<u64> },
    Tcp { ip: IpAddress, port: u16, timeout: Option<u64> },
}

/// The parameters of a serial connection. The timeout is in milliseconds.
#[derive(Debug, Clone)]
pub struct SerialConnectionParameters {
    pub port: String,
    pub baud_rate: SerialBaudrate,
    pub data_bits: Option<DataBits>,
    pub stop_bits: Option<StopBits>,
    pub parity_bit: Option<Parity>,
    pub flow_control: Option<FlowControl>,
    pub timeout: u64,
}

/// The value of an optional replacement: the new value when one is given,
/// else the current one.
pub open spec fn replaced<T>(current: T, replacement: Option<T>) -> T {
    match replacement {
        Some(v) => v,
        None => current,
    }
}

impl SerialConnectionParameters {
    /// Parameters with the given values; the port, baud rate and timeout
    /// default to `DEFAULT_SERIAL_PORT`, 9600 baud and 10 s.
    #[must_use]
    pub fn new(
        port: Option<String>,
        baud_rate: Option<SerialBaudrate>,
        data_bits: Option<DataBits>,
        stop_bits: Option<StopBits>,
        parity_bit: Option<Parity>,
        flow_control: Option<FlowControl>,
        timeout: Option<u64>,
    ) -> (r: Self)
        ensures
            r.port@ == (match port {
                Some(p) => p@,
                None => DEFAULT_SERIAL_PORT@,
            }),
            r.baud_rate == replaced(DEFAULT_SERIAL_BAUDRATE, baud_rate),
            r.data_bits == data_bits,
            r.stop_bits == stop_bits,
            r.parity_bit == parity_bit,
            r.flow_control == flow_control,
            r.timeout == replaced(DEFAULT_CONNECTION_TIMEOUT, timeout),
    {
        Self::new_with_default_port(
            DEFAULT_SERIAL_PORT,
            port,
            baud_rate,
            data_bits,
            stop_bits,
            parity_bit,
            flow_control,
            timeout,
        )
    }

    /// Parameters with the given values; the port defaults to
    /// `default_port` (the platform's first serial line, such as "COM1" on
    /// Windows), the baud rate and timeout to 9600 baud and 10 s.
    #[must_use]
    pub fn new_with_default_port(
        default_port: &str,
        port: Option<String>,
        baud_rate: Option<SerialBaudrate>,
        data_bits: Option<DataBits>,
        stop_bits: Option<StopBits>,
        parity_bit: Option<Parity>,
        flow_control: Option<FlowControl>,
        timeout: Option<u64>,
    ) -> (r: Self)
        ensures
            r.port@ == (match port {
                Some(p) => p@,
                None => default_port@,
            }),
            r.baud_rate == replaced(DEFAULT_SERIAL_BAUDRATE, baud_rate),
            r.data_bits == data_bits,
            r.stop_bits == stop_bits,
            r.parity_bit == parity_bit,
            r.flow_control == flow_control,
            r.timeout == replaced(DEFAULT_CONNECTION_TIMEOUT, timeout),
    {
        let port = match port {
            Some(p) => p,
            None => String::from_str(default_port),
        };
        let baud_rate = match baud_rate {
            Some(b) => b,
            None => DEFAULT_SERIAL_BAUDRATE,
        };
        let timeout = match timeout {
            Some(t) => t,
            None => DEFAULT_CONNECTION_TIMEOUT,
        };
        Self { port, baud_rate, data_bits, stop_bits, parity_bit, flow_control, timeout }
    }

    /// Replace all provided fields
    pub fn force(
        &mut self,
        port: Option<String>,
        baud_rate: Option<SerialBaudrate>,
        data_bits: Option<Option<DataBits>>,
        stop_bits: Option<Option<StopBits>>,
        parity_bit: Option<Option<Parity>>,
        flow_control: Option<Option<FlowControl>>,
        timeout: Option<u64>,
    )
        ensures
            final(self).port@ == (match port {
                Some(p) => p@,
                None => old(self).port@,
            }),
            final(self).baud_rate == replaced(old(self).baud_rate, baud_rate),
            final(self).data_bits == replaced(old(self).data_bits, data_bits),
            final(self).stop_bits == replaced(old(self).stop_bits, stop_bits),
            final(self).parity_bit == replaced(old(self).parity_bit, parity_bit),
            final(self).flow_control == replaced(old(self).flow_control, flow_control),
            final(self).timeout == replaced(old(self).timeout, timeout),
    {
        if let Some(port) = port {
            self.port = port;
        }
        if let Some(baud_rate) = baud_rate {
            self.baud_rate = baud_rate;
        }
        if let Some(data_bits) = data_bits {
            self.data_bits = data_bits;
        }
        if let Some(stop_bits) = stop_bits {
            self.stop_bits = stop_bits;
        }
        if let Some(parity_bit) = parity_bit {
            self.parity_bit = parity_bit;
        }
        if let Some(flow_control) = flow_control {
            self.flow_control = flow_control;
        }
        if let Some(timeout) = timeout {
            self.timeout = timeout;
        }
    }

    /// Whether the baud rate is one of `allowed_values`.
    #[must_use]
    pub fn is_valid_baud_rate(&self, allowed_values: &[SerialBaudrate]) -> (r: bool)
        ensures
            r == allowed_values@.contains(self.baud_rate),
    {
        let mut i: usize = 0;
        while i < allowed_values.len()
            invariant
                i <= allowed_values@.len(),
                forall|j: int| 0 <= j < i ==> allowed_values@[j] != self.baud_rate,
            decreases allowed_values@.len() - i,
        {
            if allowed_values[i] == self.baud_rate {
                return true;
            }
            i = i + 1;
        }
        false
    }
}

/// The parameters of a TCP connection. The timeout is in milliseconds.
#[derive(Debug, Clone, Copy, PartialEq, Eq)]
pub struct TcpConnectionParameters {
    pub ip: IpAddress,
    pub port: u16,
    pub timeout: u64,
}

impl TcpConnectionParameters {
    /// Parameters for `ip` and `port`; the timeout defaults to 10 s.
    #[must_use]
    pub fn new(ip: IpAddress, port: u16, timeout: Option<u64>) -> (r: Self)
        ensures
            r.ip == ip,
            r.port == port,
            r.timeout == replaced(DEFAULT_CONNECTION_TIMEOUT, timeout),
    {
        Self {
            ip,
            port,
            timeout: match timeout {
                Some(t) => t,
                None => DEFAULT_CONNECTION_TIMEOUT,
            },
        }
    }

    /// Replace all provided fields
    pub fn force(&mut self, ip: Option<IpAddress>, port: Option<u16>, timeout: Option<u64>)
        ensures
            final(self).ip == replaced(old(self).ip, ip),
            final(self).port == replaced(old(self).port, port),
            final(self).timeout == replaced(old(self).timeout, timeout),
    {
        if let Some(ip) = ip {
            self.ip = ip;
        }
        if let Some(port) = port {
            self.port = port;
        }
        if let Some(timeout) = timeout {
            self.timeout = timeout;
        }
    }
}

/// The parameters of the connection to open to a display.
#[derive(Debug, Clone)]
pub enum ConnectionParameters {
    Serial(SerialConnectionParameters),
    Tcp(TcpConnectionParameters),
}

} // verus!
