use displaycontrold::dialect::iiyama::set_commands::{
    AudioParameters, BlockedUserInput, ColorParameters, ColorTemperature, GammaSelection,
    InputSource, PictureFormat, PowerState, PowerStateAtColdStart, SetCommand, VideoParameters,
    Volume, VolumeLimits,
};
use displaycontrold::dialect::iiyama::RequestPackage;

/// Tests the creation of a RawRequestPackage with simple data.
#[test]
fn test_raw_request_package() {
    let package = RequestPackage::new_raw(1, 0x19, &Some(vec![0x01]));
    assert_eq!(package.header, 0xa6);
    assert_eq!(package.monitor_id, 0x01);
    assert_eq!(package.category, 0x00);
    assert_eq!(package.code0, 0x00);
    assert_eq!(package.code1, 0x00);
    assert_eq!(package.length, 4);
    assert_eq!(package.data_control, 0x01);
    assert_eq!(package.data.unwrap(), vec![0x19, 0x01]);
    assert_eq!(package.checksum, 0xa6 ^ 1 ^ 4 ^ 0x01 ^ 0x19 ^ 0x01);
}

/// Tests the creation of a RawRequestPackage with no data.
#[test]
fn test_raw_request_package_no_data() {
    let package = RequestPackage::new_raw(1, 0x19, &None);
    assert_eq!(package.header, 0xa6);
    assert_eq!(package.monitor_id, 0x01);
    assert_eq!(package.category, 0x00);
    assert_eq!(package.code0, 0x00);
    assert_eq!(package.code1, 0x00);
    assert_eq!(package.length, 3);
    assert_eq!(package.data_control, 0x01);
    assert_eq!(package.data, Some(vec![0x19]));
    assert_eq!(package.checksum, 0xa6 ^ 1 ^ 3 ^ 1 ^ 0x19);
}

#[test]
fn test_set_power_state_off() {
    let package = RequestPackage::new(1, &SetCommand::PowerState(PowerState::Off));
    assert_eq!(package.header, 0xa6);
    assert_eq!(package.monitor_id, 0x01);
    assert_eq!(package.category, 0x00);
    assert_eq!(package.code0, 0x00);
    assert_eq!(package.code1, 0x00);
    assert_eq!(package.length, 0x04);
    assert_eq!(package.data_control, 0x01);
    assert_eq!(package.data.unwrap(), vec![0x18, 0x01]);
    assert_eq!(package.checksum, 0xbb);
}

#[test]
fn test_set_power_state_on() {
    let package = RequestPackage::new(1, &SetCommand::PowerState(PowerState::On));
    assert_eq!(package.header, 0xa6);
    assert_eq!(package.monitor_id, 0x01);
    assert_eq!(package.category, 0x00);
    assert_eq!(package.code0, 0x00);
    assert_eq!(package.code1, 0x00);
    assert_eq!(package.length, 0x04);
    assert_eq!(package.data_control, 0x01);
    assert_eq!(package.data.unwrap(), vec![0x18, 0x02]);
    assert_eq!(package.checksum, 0xb8);
}

#[test]
fn test_unlock_remote_control() {
    let package = RequestPackage::new(1, &SetCommand::IrRemoteControl(BlockedUserInput::UnlockAll));
    assert_eq!(package.header, 0xa6);
    assert_eq!(package.monitor_id, 0x01);
    assert_eq!(package.category, 0x00);
    assert_eq!(package.code0, 0x00);
    assert_eq!(package.code1, 0x00);
    assert_eq!(package.length, 0x04);
    assert_eq!(package.data_control, 0x01);
    assert_eq!(package.data.unwrap(), vec![0x1c, 0x01]);
    assert_eq!(package.checksum, 0xbf);
}

#[test]
fn test_unlock_keypad() {
    let package = RequestPackage::new(1, &SetCommand::KeypadControl(BlockedUserInput::UnlockAll));
    assert_eq!(package.header, 0xa6);
    assert_eq!(package.monitor_id, 0x01);
    assert_eq!(package.category, 0x00);
    assert_eq!(package.code0, 0x00);
    assert_eq!(package.code1, 0x00);
    assert_eq!(package.length, 0x04);
    assert_eq!(package.data_control, 0x01);
    assert_eq!(package.data.unwrap(), vec![0x1a, 0x01]);
    assert_eq!(package.checksum, 0xb9);
}

#[test]
fn test_power_cold_start_last_state() {
    let package = RequestPackage::new(1, &SetCommand::PowerStateAtColdStart(PowerStateAtColdStart::LastState));
    assert_eq!(package.header, 0xa6);
    assert_eq!(package.monitor_id, 0x01);
    assert_eq!(package.category, 0x00);
    assert_eq!(package.code0, 0x00);
    assert_eq!(package.code1, 0x00);
    assert_eq!(package.length, 0x04);
    assert_eq!(package.data_control, 0x01);
    assert_eq!(package.data.unwrap(), vec![0xa3, 0x02]);
    assert_eq!(package.checksum, 0x03);
}

#[test]
fn test_input_source_dvi_d() {
    let package = RequestPackage::new(1, &SetCommand::InputSource(InputSource::DviD));
    assert_eq!(package.header, 0xa6);
    assert_eq!(package.monitor_id, 0x01);
    assert_eq!(package.category, 0x00);
    assert_eq!(package.code0, 0x00);
    assert_eq!(package.code1, 0x00);
    assert_eq!(package.length, 0x07);
    assert_eq!(package.data_control, 0x01);
    assert_eq!(package.data.unwrap(), vec![0xac, 0x0e, 0x00, 0x00, 0x00]);
    assert_eq!(package.checksum, 0x03);
}

#[test]
fn test_set_all_video_parameters_to_55() {
    let params = VideoParameters {
        brightness: 55,
        color: 55,
        contrast: 55,
        sharpness: 55,
        tint: 55,
        black_level: 55,
        gamma: GammaSelection::Gamma22,
    };
    let package = RequestPackage::new(1, &SetCommand::VideoParameters(params));
    assert_eq!(package.header, 0xa6);
    assert_eq!(package.monitor_id, 0x01);
    assert_eq!(package.category, 0x00);
    assert_eq!(package.code0, 0x00);
    assert_eq!(package.code1, 0x00);
    assert_eq!(package.length, 0x0a);
    assert_eq!(package.data_control, 0x01);
    assert_eq!(package.data.unwrap(), vec![0x32, 0x37, 0x37, 0x37, 0x37, 0x37, 0x37, 0x03]);
    assert_eq!(package.checksum, 0x9d);
}

#[test]
fn test_set_color_temperature_native() {
    let package = RequestPackage::new(1, &SetCommand::ColorTemperature(ColorTemperature::Native));
    assert_eq!(package.header, 0xa6);
    assert_eq!(package.monitor_id, 0x01);
    assert_eq!(package.category, 0x00);
    assert_eq!(package.code0, 0x00);
    assert_eq!(package.code1, 0x00);
    assert_eq!(package.length, 0x04);
    assert_eq!(package.data_control, 0x01);
    assert_eq!(package.data.unwrap(), vec![0x34, 0x01]);
    assert_eq!(package.checksum, 0x97);
}

#[test]
fn test_set_all_color_parameters_to_255() {
    let params = ColorParameters {
        red_gain: 255,
        green_gain: 255,
        blue_gain: 255,
        red_offset: 255,
        green_offset: 255,
        blue_offset: 255,
    };
    let package = RequestPackage::new(1, &SetCommand::ColorParameters(params));
    assert_eq!(package.header, 0xa6);
    assert_eq!(package.monitor_id, 0x01);
    assert_eq!(package.category, 0x00);
    assert_eq!(package.code0, 0x00);
    assert_eq!(package.code1, 0x00);
    assert_eq!(package.length, 0x09);
    assert_eq!(package.data_control, 0x01);
    assert_eq!(package.data.unwrap(), vec![0x36, 0xff, 0xff, 0xff, 0xff, 0xff, 0xff]);
    assert_eq!(package.checksum, 0x99);
}

#[test]
fn test_set_format_full() {
    let package = RequestPackage::new(1, &SetCommand::PictureFormat(PictureFormat::Full));
    assert_eq!(package.header, 0xa6);
    assert_eq!(package.monitor_id, 0x01);
    assert_eq!(package.category, 0x00);
    assert_eq!(package.code0, 0x00);
    assert_eq!(package.code1, 0x00);
    assert_eq!(package.length, 0x04);
    assert_eq!(package.data_control, 0x01);
    assert_eq!(package.data.unwrap(), vec![0x3a, 0x03]);
    assert_eq!(package.checksum, 0x9b);
}

#[test]
fn test_set_volume_level_77() {
    let volume = Volume {
        volume: 77,
        audio_out_volume_level: 77,
    };
    let package = RequestPackage::new(1, &SetCommand::Volume(volume));
    assert_eq!(package.header, 0xa6);
    assert_eq!(package.monitor_id, 0x01);
    assert_eq!(package.category, 0x00);
    assert_eq!(package.code0, 0x00);
    assert_eq!(package.code1, 0x00);
    assert_eq!(package.length, 0x05);
    assert_eq!(package.data_control, 0x01);
    assert_eq!(package.data.unwrap(), vec![0x44, 0x4d, 0x4d]);
    assert_eq!(package.checksum, 0xe7);
}

#[test]
fn test_set_volume_limits() {
    let limits = VolumeLimits {
        min_volume: 10,
        max_volume: 77,
        switch_on_volume: 50,
    };
    let package = RequestPackage::new(1, &SetCommand::VolumeLimits(limits));
    assert_eq!(package.header, 0xa6);
    assert_eq!(package.monitor_id, 0x01);
    assert_eq!(package.category, 0x00);
    assert_eq!(package.code0, 0x00);
    assert_eq!(package.code1, 0x00);
    assert_eq!(package.length, 0x06);
    assert_eq!(package.data_control, 0x01);
    assert_eq!(package.data.unwrap(), vec![0xb8, 0x0a, 0x4d, 0x32]);
    assert_eq!(package.checksum, 0x6d);
}

#[test]
fn test_set_audio_parameters_77() {
    let params = AudioParameters {
        treble: 77,
        bass: 77,
    };
    let package = RequestPackage::new(1, &SetCommand::AudioParameters(params));
    assert_eq!(package.header, 0xa6);
    assert_eq!(package.monitor_id, 0x01);
    assert_eq!(package.category, 0x00);
    assert_eq!(package.code0, 0x00);
    assert_eq!(package.code1, 0x00);
    assert_eq!(package.length, 0x05);
    assert_eq!(package.data_control, 0x01);
    assert_eq!(package.data.unwrap(), vec![0x42, 0x4d, 0x4d]);
    assert_eq!(package.checksum, 0xe1);
}

#[test]
fn test_set_auto_adjust() {
    let package = RequestPackage::new(1, &SetCommand::AutoAdjust);
    assert_eq!(package.header, 0xa6);
    assert_eq!(package.monitor_id, 0x01);
    assert_eq!(package.category, 0x00);
    assert_eq!(package.code0, 0x00);
    assert_eq!(package.code1, 0x00);
    assert_eq!(package.length, 0x05);
    assert_eq!(package.data_control, 0x01);
    assert_eq!(package.data.unwrap(), vec![0x70, 0x40, 0x00]);
    assert_eq!(package.checksum, 0x93);
}
