use displaycontrold::checksum::xor_of;
use displaycontrold::connection::{
    ConnectionParameters, DataBits, FlowControl, IpAddress, Parity, SerialBaudrate,
    SerialConnectionParameters, StopBits, TcpConnectionParameters, UserConnectionSettings,
};
use displaycontrold::controller::AddSettingsError;
use displaycontrold::dialect::iiyama::get_commands::GetCommand;
use displaycontrold::dialect::iiyama::set_commands::{
    AudioParameters, BlockedUserInput, ColorParameters, GammaSelection, InputSource, PowerState,
    SetCommand, VideoParameters, Volume, VolumeLimits,
};
use displaycontrold::dialect::iiyama::{
    IiyamaCommand, IiyamaController, RequestPackage, SettingValue, WriteSetting,
};

fn frame_of(command: &SetCommand) -> Vec<u8> {
    Vec::<u8>::from(RequestPackage::new(1, command))
}

#[test]
fn frame_bytes_in_wire_order() {
    let bytes = frame_of(&SetCommand::PowerState(PowerState::Off));
    assert_eq!(bytes, vec![0xa6, 0x01, 0x00, 0x00, 0x00, 0x04, 0x01, 0x18, 0x01, 0xbb]);
}

#[test]
fn frame_without_payload_in_wire_order() {
    let bytes = Vec::<u8>::from(RequestPackage::new_raw(7, 0x19, &None));
    assert_eq!(bytes, vec![0xa6, 0x07, 0x00, 0x00, 0x00, 0x03, 0x01, 0x19, 0xa6 ^ 7 ^ 3 ^ 1 ^ 0x19]);
}

#[test]
fn every_frame_xors_to_zero_and_is_six_longer_than_its_length_byte() {
    let commands = vec![
        SetCommand::PowerState(PowerState::On),
        SetCommand::IrRemoteControl(BlockedUserInput::ExceptPowerVolume),
        SetCommand::InputSource(InputSource::HDMi4),
        SetCommand::VideoParameters(VideoParameters {
            brightness: 1,
            color: 2,
            contrast: 3,
            sharpness: 4,
            tint: 5,
            black_level: 6,
            gamma: GammaSelection::DImage,
        }),
        SetCommand::ColorParameters(ColorParameters {
            red_gain: 9,
            green_gain: 8,
            blue_gain: 7,
            red_offset: 6,
            green_offset: 5,
            blue_offset: 4,
        }),
        SetCommand::AutoAdjust,
    ];
    for monitor_id in [0u8, 1, 0x2a, 0xff] {
        for command in &commands {
            let package = RequestPackage::new(monitor_id, command);
            let length = package.length;
            let bytes = Vec::<u8>::from(package);
            assert_eq!(bytes.iter().fold(0u8, |acc, b| acc ^ b), 0);
            assert_eq!(bytes.len(), length as usize + 6);
            assert_eq!(bytes[7], command.get_command_code());
            assert_eq!(bytes[8..bytes.len() - 1].to_vec(), command.get_payload_data().unwrap());
        }
    }
}

#[test]
fn xor_of_folds_all_bytes() {
    assert_eq!(xor_of(&[]), 0);
    assert_eq!(xor_of(&[0x0f, 0xf0, 0x01]), 0xfe);
}

#[test]
fn get_command_codes() {
    assert_eq!(GetCommand::PowerState.get_command_code(), 0x19);
    assert_eq!(GetCommand::CurrentSource.get_command_code(), 0xad);
    assert_eq!(GetCommand::SerialCode.get_command_code(), 0x15);
    assert_eq!(GetCommand::MiscellaneousInfo.get_command_code(), 0x0f);
}

#[test]
fn set_commands_have_no_matching_get_command() {
    assert!(SetCommand::AutoAdjust.get_matching_get_command().is_none());
    assert!(SetCommand::PowerState(PowerState::On).get_matching_get_command().is_none());
}

#[test]
fn video_parameters_clip_to_100_and_clip_is_idempotent() {
    let mut params = VideoParameters {
        brightness: 200,
        color: 100,
        contrast: 101,
        sharpness: 0,
        tint: 255,
        black_level: 42,
        gamma: GammaSelection::Native,
    };
    params.clip_values();
    let expected = VideoParameters {
        brightness: 100,
        color: 100,
        contrast: 100,
        sharpness: 0,
        tint: 100,
        black_level: 42,
        gamma: GammaSelection::Native,
    };
    assert_eq!(params, expected);
    params.clip_values();
    assert_eq!(params, expected);
}

#[test]
fn volume_and_audio_parameters_clip_to_100() {
    let mut volume = Volume { volume: 150, audio_out_volume_level: 99 };
    volume.clip_values();
    assert_eq!(volume, Volume { volume: 100, audio_out_volume_level: 99 });
    let mut audio = AudioParameters { treble: 255, bass: 100 };
    audio.clip_values();
    assert_eq!(audio, AudioParameters { treble: 100, bass: 100 });
    audio.clip_values();
    assert_eq!(audio, AudioParameters { treble: 100, bass: 100 });
}

#[test]
fn volume_limits_clip_switch_on_between_limits() {
    let mut limits = VolumeLimits { min_volume: 5, max_volume: 150, switch_on_volume: 200 };
    limits.clip_values();
    assert_eq!(limits, VolumeLimits { min_volume: 5, max_volume: 100, switch_on_volume: 100 });
    let mut low = VolumeLimits { min_volume: 30, max_volume: 60, switch_on_volume: 10 };
    low.clip_values();
    assert_eq!(low, VolumeLimits { min_volume: 30, max_volume: 60, switch_on_volume: 30 });
    low.clip_values();
    assert_eq!(low, VolumeLimits { min_volume: 30, max_volume: 60, switch_on_volume: 30 });
}

#[test]
fn setting_names() {
    assert_eq!(WriteSetting::from_name("power.state"), Some(WriteSetting::PowerState));
    assert_eq!(WriteSetting::from_name("power.onstart"), Some(WriteSetting::PowerStateAtColdStart));
    assert_eq!(WriteSetting::from_name("input.source"), Some(WriteSetting::InputSource));
    assert_eq!(WriteSetting::from_name("hardware.ir.block"), Some(WriteSetting::IrRemoteControl));
    assert_eq!(WriteSetting::from_name("hardware.keypad.block"), Some(WriteSetting::KeypadControl));
    assert_eq!(WriteSetting::from_name("picture.format"), Some(WriteSetting::PictureFormat));
    assert_eq!(
        WriteSetting::from_name("picture.color.temperature"),
        Some(WriteSetting::ColorTemperature)
    );
    assert_eq!(
        WriteSetting::from_name("picture.video.parameters"),
        Some(WriteSetting::VideoParameters)
    );
    assert_eq!(
        WriteSetting::from_name("picture.color.parameters"),
        Some(WriteSetting::ColorParameters)
    );
    assert_eq!(WriteSetting::from_name("audio.volume"), Some(WriteSetting::Volume));
    assert_eq!(WriteSetting::from_name("audio.volume.limits"), Some(WriteSetting::VolumeLimits));
    assert_eq!(WriteSetting::from_name("audio.parameters"), Some(WriteSetting::AudioParameters));
    assert_eq!(WriteSetting::from_name("audio.volum"), None);
    assert_eq!(WriteSetting::from_name(""), None);
}

#[test]
fn unknown_setting_is_refused_and_queue_unchanged() {
    let mut controller = IiyamaController::new();
    let r = controller.add_write_setting_request("power", Some(SettingValue::PowerState(PowerState::On)));
    assert_eq!(r, Err(AddSettingsError::UnknownSetting));
    assert!(controller.write_setting_requests().is_empty());
}

#[test]
fn value_of_wrong_type_is_refused_with_expected_type() {
    let mut controller = IiyamaController::new();
    let r = controller.add_write_setting_request(
        "power.state",
        Some(SettingValue::InputSource(InputSource::Vga)),
    );
    assert_eq!(r, Err(AddSettingsError::InvalidType("Iiyama PowerState (see docs for details)")));
    let r = controller.add_write_setting_request("hardware.keypad.block", None);
    assert_eq!(
        r,
        Err(AddSettingsError::InvalidType("Iiyama BlockedUserInput (see docs for details)"))
    );
    assert!(controller.write_setting_requests().is_empty());
}

#[test]
fn accepted_settings_are_queued_in_order_and_clipped() {
    let mut controller = IiyamaController::new();
    assert_eq!(
        controller.add_write_setting_request(
            "hardware.ir.block",
            Some(SettingValue::BlockedUserInput(BlockedUserInput::LockAll)),
        ),
        Ok(())
    );
    assert_eq!(
        controller.add_write_setting_request(
            "hardware.keypad.block",
            Some(SettingValue::BlockedUserInput(BlockedUserInput::LockAllButPower)),
        ),
        Ok(())
    );
    assert_eq!(
        controller.add_write_setting_request(
            "audio.volume",
            Some(SettingValue::Volume(Volume { volume: 180, audio_out_volume_level: 20 })),
        ),
        Ok(())
    );
    assert_eq!(
        *controller.write_setting_requests(),
        vec![
            SetCommand::IrRemoteControl(BlockedUserInput::LockAll),
            SetCommand::KeypadControl(BlockedUserInput::LockAllButPower),
            SetCommand::Volume(Volume { volume: 100, audio_out_volume_level: 20 }),
        ]
    );
    assert!(controller.read_setting_requests().is_empty());
}

#[test]
fn type_descriptions() {
    assert_eq!(WriteSetting::Volume.type_description(), "Iiyama Volume (see docs for details)");
    assert_eq!(
        WriteSetting::IrRemoteControl.type_description(),
        "Iiyama BlockedUserInput (see docs for details)"
    );
}

#[test]
fn serial_parameters_for_iiyama_force_8n1_and_keep_rate() {
    let settings = SerialConnectionParameters::new(
        Some("/dev/ttyS3".to_string()),
        Some(SerialBaudrate::B38400),
        Some(DataBits::Seven),
        None,
        Some(Parity::Even),
        Some(FlowControl::Hardware),
        Some(2500),
    );
    let compatible = IiyamaController::compatible_serial_parameters(&settings);
    assert_eq!(compatible.port, "/dev/ttyS3");
    assert_eq!(compatible.baud_rate, SerialBaudrate::B38400);
    assert_eq!(compatible.data_bits, Some(DataBits::Eight));
    assert_eq!(compatible.stop_bits, Some(StopBits::One));
    assert_eq!(compatible.parity_bit, Some(Parity::NoParity));
    assert_eq!(compatible.flow_control, Some(FlowControl::NoFlowControl));
    assert_eq!(compatible.timeout, 2500);
}

#[test]
fn tcp_parameters_for_iiyama_use_port_5000() {
    let settings = TcpConnectionParameters::new(IpAddress::V4([10, 0, 0, 9]), 80, None);
    let compatible = IiyamaController::compatible_tcp_parameters(&settings);
    assert_eq!(compatible.ip, IpAddress::V4([10, 0, 0, 9]));
    assert_eq!(compatible.port, 5000);
    assert_eq!(compatible.timeout, 10_000);
}

#[test]
fn connection_parameters_for_serial_settings() {
    let params = IiyamaController::connection_parameters(UserConnectionSettings::Serial {
        port: "/dev/ttyUSB1".to_string(),
        baud_rate: None,
        timeout: Some(250),
    });
    match params {
        ConnectionParameters::Serial(p) => {
            assert_eq!(p.port, "/dev/ttyUSB1");
            assert_eq!(p.baud_rate, SerialBaudrate::B9600);
            assert_eq!(p.data_bits, Some(DataBits::Eight));
            assert_eq!(p.stop_bits, Some(StopBits::One));
            assert_eq!(p.parity_bit, Some(Parity::NoParity));
            assert_eq!(p.flow_control, Some(FlowControl::NoFlowControl));
            assert_eq!(p.timeout, 250);
        }
        ConnectionParameters::Tcp(_) => panic!("expected serial parameters"),
    }
}

#[test]
fn connection_parameters_for_tcp_settings() {
    let params = IiyamaController::connection_parameters(UserConnectionSettings::Tcp {
        ip: IpAddress::V6([0, 0, 0, 0, 0, 0, 0, 0, 0, 0, 0, 0, 0, 0, 0, 1]),
        port: 23,
        timeout: None,
    });
    match params {
        ConnectionParameters::Tcp(p) => {
            assert_eq!(p.ip, IpAddress::V6([0, 0, 0, 0, 0, 0, 0, 0, 0, 0, 0, 0, 0, 0, 0, 1]));
            assert_eq!(p.port, 5000);
            assert_eq!(p.timeout, 10_000);
        }
        ConnectionParameters::Serial(_) => panic!("expected TCP parameters"),
    }
}

#[test]
fn no_baud_rate_falls_back_on_iiyama_displays() {
    for b in [None, Some(SerialBaudrate::B1200), Some(SerialBaudrate::B57600)] {
        let settings = UserConnectionSettings::Serial {
            port: "/dev/ttyUSB0".to_string(),
            baud_rate: b,
            timeout: None,
        };
        assert!(!IiyamaController::falls_back_to_default_baud_rate(&settings));
    }
    let tcp = UserConnectionSettings::Tcp { ip: IpAddress::V4([127, 0, 0, 1]), port: 1, timeout: None };
    assert!(!IiyamaController::falls_back_to_default_baud_rate(&tcp));
}

#[test]
fn volume_limits_with_minimum_above_maximum_are_clipped_too() {
    let mut limits = VolumeLimits { min_volume: 80, max_volume: 20, switch_on_volume: 95 };
    limits.clip_values();
    assert_eq!(limits, VolumeLimits { min_volume: 80, max_volume: 20, switch_on_volume: 80 });
    let mut high = VolumeLimits { min_volume: 250, max_volume: 40, switch_on_volume: 10 };
    high.clip_values();
    assert_eq!(high, VolumeLimits { min_volume: 100, max_volume: 40, switch_on_volume: 40 });
    high.clip_values();
    assert_eq!(high, VolumeLimits { min_volume: 100, max_volume: 40, switch_on_volume: 40 });

    let mut controller = IiyamaController::new();
    let r = controller.add_write_setting_request(
        "audio.volume.limits",
        Some(SettingValue::VolumeLimits(VolumeLimits { min_volume: 80, max_volume: 20, switch_on_volume: 50 })),
    );
    assert_eq!(r, Ok(()));
    assert_eq!(
        *controller.write_setting_requests(),
        vec![SetCommand::VolumeLimits(VolumeLimits { min_volume: 80, max_volume: 20, switch_on_volume: 50 })]
    );
}
