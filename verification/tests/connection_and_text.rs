use displaycontrold::common::{FunctionConversionError, PowerState as CommonPowerState};
use displaycontrold::connection::{
    DataBits, FlowControl, IpAddress, Parity, SerialBaudrate, SerialBaudrateError,
    SerialConnectionParameters, StopBits, TcpConnectionParameters, DEFAULT_SERIAL_PORT,
};
use displaycontrold::controller::{AddSettingsError, RequestedSetting, SettingEntry};
use displaycontrold::dialect::iiyama::SUPPORTED_BAUD_RATES;
use displaycontrold::iiyama::{
    GetCommand as LegacyGetCommand, SerialBaudrate as LegacyBaudrate,
    SerialBaudrateError as LegacyBaudrateError, SetCommand as LegacySetCommand,
};
use displaycontrold::{
    get_add_settings_error_message, get_screen_label_prefix, get_unsupported_dialect_message,
    Dialect,
};

#[test]
fn baudrate_from_supported_values() {
    assert_eq!(SerialBaudrate::try_from(1200), Ok(SerialBaudrate::B1200));
    assert_eq!(SerialBaudrate::try_from(57600), Ok(SerialBaudrate::B57600));
    assert_eq!(SerialBaudrate::try_from(115200), Err(SerialBaudrateError::UnsupportedBaudrate(115200)));
    assert_eq!(SerialBaudrate::try_from(0), Err(SerialBaudrateError::UnsupportedBaudrate(0)));
    assert_eq!(SerialBaudrate::default(), SerialBaudrate::B9600);
}

#[test]
fn baudrate_value_roundtrip() {
    for b in SUPPORTED_BAUD_RATES {
        assert_eq!(SerialBaudrate::try_from(b.value()), Ok(b));
    }
    assert_eq!(SerialBaudrate::B19200.value(), 19200);
}

#[test]
fn legacy_baudrate() {
    assert_eq!(LegacyBaudrate::try_from(4800), Ok(LegacyBaudrate::B4800));
    assert_eq!(LegacyBaudrate::try_from(4801), Err(LegacyBaudrateError::UnsupportedBaudrate));
    assert_eq!(LegacyBaudrate::default(), LegacyBaudrate::B9600);
    assert_eq!(LegacyBaudrate::B38400.value(), 38400);
}

#[test]
fn serial_parameters_defaults() {
    let p = SerialConnectionParameters::new(None, None, None, None, None, None, None);
    assert_eq!(p.port, DEFAULT_SERIAL_PORT);
    assert_eq!(p.port, "/dev/ttyUSB0");
    assert_eq!(p.baud_rate, SerialBaudrate::B9600);
    assert_eq!(p.data_bits, None);
    assert_eq!(p.stop_bits, None);
    assert_eq!(p.parity_bit, None);
    assert_eq!(p.flow_control, None);
    assert_eq!(p.timeout, 10_000);
}

#[test]
fn serial_parameters_force_replaces_given_fields_only() {
    let mut p = SerialConnectionParameters::new(
        Some("COM3".to_string()),
        Some(SerialBaudrate::B2400),
        Some(DataBits::Five),
        Some(StopBits::Two),
        None,
        None,
        Some(1),
    );
    p.force(None, Some(SerialBaudrate::B4800), Some(None), None, Some(Some(Parity::Odd)), None, None);
    assert_eq!(p.port, "COM3");
    assert_eq!(p.baud_rate, SerialBaudrate::B4800);
    assert_eq!(p.data_bits, None);
    assert_eq!(p.stop_bits, Some(StopBits::Two));
    assert_eq!(p.parity_bit, Some(Parity::Odd));
    assert_eq!(p.flow_control, None);
    assert_eq!(p.timeout, 1);
    p.force(Some("COM4".to_string()), None, None, None, None, Some(Some(FlowControl::Software)), Some(7));
    assert_eq!(p.port, "COM4");
    assert_eq!(p.flow_control, Some(FlowControl::Software));
    assert_eq!(p.timeout, 7);
}

#[test]
fn baud_rate_validity() {
    let p = SerialConnectionParameters::new(None, Some(SerialBaudrate::B1200), None, None, None, None, None);
    assert!(p.is_valid_baud_rate(&SUPPORTED_BAUD_RATES));
    assert!(!p.is_valid_baud_rate(&[SerialBaudrate::B9600, SerialBaudrate::B57600]));
    assert!(!p.is_valid_baud_rate(&[]));
}

#[test]
fn tcp_parameters_new_and_force() {
    let mut p = TcpConnectionParameters::new(IpAddress::V4([192, 168, 1, 2]), 1234, Some(300));
    assert_eq!(p.timeout, 300);
    p.force(Some(IpAddress::V6([0; 16])), None, None);
    assert_eq!(p.ip, IpAddress::V6([0; 16]));
    assert_eq!(p.port, 1234);
    assert_eq!(p.timeout, 300);
}

#[test]
fn power_state_from_text() {
    assert_eq!(CommonPowerState::try_from("on"), Ok(CommonPowerState::On));
    assert_eq!(CommonPowerState::try_from("off"), Ok(CommonPowerState::Off));
    assert_eq!(
        CommonPowerState::try_from("standby"),
        Err(FunctionConversionError::InvalidValue("standby doesn't match 'on' or 'off'".to_string()))
    );
}

#[test]
fn legacy_set_command_from_str() {
    assert_eq!(
        LegacySetCommand::from_str("power", "on"),
        Ok(LegacySetCommand::PowerState(CommonPowerState::On))
    );
    assert_eq!(LegacySetCommand::from_str("input", "hdmi"), Ok(LegacySetCommand::InputSource));
    assert_eq!(
        LegacySetCommand::from_str("volume", "on"),
        Err(FunctionConversionError::UnknownCommand)
    );
    assert_eq!(
        LegacySetCommand::from_str("power", "ON"),
        Err(FunctionConversionError::InvalidValue("ON doesn't match 'on' or 'off'".to_string()))
    );
}

#[test]
fn legacy_command_codes_and_payloads() {
    assert_eq!(LegacySetCommand::AutoAdjust.get_command_code(), 0x70);
    assert_eq!(LegacySetCommand::VolumeLimits.get_command_code(), 0xb8);
    assert_eq!(LegacySetCommand::PowerState(CommonPowerState::On).get_payload_data(), Some(vec![0x02]));
    assert_eq!(LegacySetCommand::Volume.get_payload_data(), None);
    assert_eq!(LegacyGetCommand::CommunicationControl.get_command_code(), 0x00);
    assert_eq!(LegacyGetCommand::AudioParameters.get_command_code(), 0x43);
}

#[test]
fn screen_label_prefix() {
    assert_eq!(get_screen_label_prefix(&None, 0), "Screen 0: ");
    assert_eq!(get_screen_label_prefix(&None, 7), "Screen 7: ");
    assert_eq!(get_screen_label_prefix(&None, 1203), "Screen 1203: ");
    assert_eq!(get_screen_label_prefix(&None, usize::MAX), format!("Screen {}: ", usize::MAX));
    assert_eq!(get_screen_label_prefix(&Some("lobby".to_string()), 3), "Screen \"lobby\": ");
}

#[test]
fn add_settings_error_messages() {
    let label = Some("hall".to_string());
    assert_eq!(
        get_add_settings_error_message(&label, 1, "audio.bass", &AddSettingsError::UnknownSetting),
        "Screen \"hall\": Unknown setting 'audio.bass'"
    );
    assert_eq!(
        get_add_settings_error_message(
            &None,
            2,
            "audio.volume",
            &AddSettingsError::InvalidValue("loud".to_string())
        ),
        "Screen 2: Invalid value for setting 'audio.volume': loud"
    );
    assert_eq!(
        get_add_settings_error_message(
            &None,
            0,
            "power.state",
            &AddSettingsError::InvalidType("Iiyama PowerState (see docs for details)")
        ),
        "Screen 0: Invalid type for setting 'power.state', expected: Iiyama PowerState (see docs for details)"
    );
}

#[test]
fn dialects() {
    assert_eq!(Dialect::from_name("iiyama"), Some(Dialect::Iiyama));
    assert_eq!(Dialect::from_name("Iiyama"), None);
    assert_eq!(
        get_unsupported_dialect_message(&None, "nec"),
        "Screen \"unnamed\": Unsupported dialect: nec"
    );
    assert_eq!(
        get_unsupported_dialect_message(&Some("wall".to_string()), "nec"),
        "Screen \"wall\": Unsupported dialect: nec"
    );
}

#[test]
fn setting_entries_and_requests_carry_their_values() {
    let entry = SettingEntry::new("audio.volume".to_string(), serde_json::Value::from(42));
    assert_eq!(entry.get_name(), "audio.volume");
    assert_eq!(entry.get_value(), &serde_json::Value::from(42));
    let request = RequestedSetting {
        name: "power.state".to_string(),
        value: serde_json::Value::from("on"),
        time_filter: None,
    };
    assert_eq!(request.get_name(), "power.state");
    assert_eq!(request.get_value(), &serde_json::Value::from("on"));
}

#[test]
fn serial_parameters_with_platform_default_port() {
    let p = SerialConnectionParameters::new_with_default_port("COM1", None, None, None, None, None, None, None);
    assert_eq!(p.port, "COM1");
    assert_eq!(p.baud_rate, SerialBaudrate::B9600);
    assert_eq!(p.timeout, 10_000);
    let q = SerialConnectionParameters::new_with_default_port(
        "COM1",
        Some("COM7".to_string()),
        None,
        None,
        None,
        None,
        None,
        None,
    );
    assert_eq!(q.port, "COM7");
}
