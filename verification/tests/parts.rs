use lib::audio::{AudioChannel, BuiltinEnvelopeShape, Envelope, EnvelopeFrequency, ATTACK_BIT};
use lib::command::Command;
use lib::envelopes;
use lib::errors::Error;
use lib::io::{ChipMode, IoPort, IoPortMixerSettings, IoPortMode};
use lib::register::{readable_name, Register, RegisterIndex, LEVEL_REGS, READABLE_REG_NAMES};

#[test]
fn audio_channel_index() {
    assert_eq!(AudioChannel::A.index(), 0);
    assert_eq!(AudioChannel::B.index(), 1);
    assert_eq!(AudioChannel::C.index(), 2);
}

#[test]
fn builtin_shape_bits() {
    assert_eq!(BuiltinEnvelopeShape::FadeOut.bits(), 0b1001);
    assert_eq!(BuiltinEnvelopeShape::FadeIn.bits(), 0b1101);
    assert_eq!(BuiltinEnvelopeShape::Tooth.bits(), 0b1111);
    assert_eq!(BuiltinEnvelopeShape::Saw.bits(), 0b1100);
    assert_eq!(BuiltinEnvelopeShape::Triangle.bits(), 0b1110);
}

#[test]
fn envelope_bytes() {
    assert_eq!(u8::from(&Envelope::Shape(BuiltinEnvelopeShape::Tooth)), 0b1111);
    assert_eq!(u8::from(&Envelope::InvertedShape(BuiltinEnvelopeShape::Tooth)), 0b1011);
    assert_eq!(u8::from(&Envelope::InvertedShape(BuiltinEnvelopeShape::FadeOut)), 0b1101);
    assert_eq!(Envelope::Raw(0xAB).to_byte(), 0xAB);
}

#[test]
fn inverting_flips_only_the_attack_bit() {
    for s in [
        BuiltinEnvelopeShape::FadeOut,
        BuiltinEnvelopeShape::FadeIn,
        BuiltinEnvelopeShape::Tooth,
        BuiltinEnvelopeShape::Saw,
        BuiltinEnvelopeShape::Triangle,
    ] {
        let plain = Envelope::Shape(s).to_byte();
        let inverted = Envelope::InvertedShape(s).to_byte();
        assert_eq!(plain ^ inverted, ATTACK_BIT);
    }
}

#[test]
fn envelope_frequency_as_ep() {
    assert_eq!(EnvelopeFrequency::Integer(1234).as_ep(2_000_000), Ok(1234));
    assert_eq!(EnvelopeFrequency::Hertz(0).as_ep(2_000_000), Err(Error::DivisionByZero));
    assert_eq!(EnvelopeFrequency::Hertz(1).as_ep(2_000_000), Ok(7812));
    assert_eq!(EnvelopeFrequency::Hertz(10).as_ep(2_000_000), Ok(781));
    assert_eq!(EnvelopeFrequency::Hertz(1).as_ep(20_000_000), Err(Error::TonePeriodOutOfRange(12589)));
    assert_eq!(EnvelopeFrequency::BeatsPerMinute(0).as_ep(2_000_000), Err(Error::DivisionByZero));
    assert_eq!(EnvelopeFrequency::BeatsPerMinute(100).as_ep(2_000_000), Ok(4680));
    assert_eq!(EnvelopeFrequency::BeatsPerMinute(1).as_ep(20_000_000), Err(Error::TonePeriodOutOfRange(12589)));
}

#[test]
fn bpm_is_sixty_times_hertz() {
    for n in [7u16, 100, 1000, 60000] {
        let hz = EnvelopeFrequency::Hertz(n).as_ep(2_000_000).unwrap();
        assert_eq!(EnvelopeFrequency::BeatsPerMinute(n).as_ep(2_000_000), Ok(60 * hz));
    }
}

#[test]
fn register_numbers_and_names() {
    assert_eq!(Register::AFreq8bitFinetone.number(), 0);
    assert_eq!(Register::IoPortMixerSettings.number(), 7);
    assert_eq!(Register::DataIoB.number(), 15);
    assert_eq!(Register::EShape.name(), "Shape of envelope");
    assert_eq!(readable_name(6), "Frequency of noise, 5 bit noise frequency");
    assert_eq!(READABLE_REG_NAMES[8], "Level of channel A");
    assert_eq!(LEVEL_REGS, [Register::ALevel, Register::BLevel, Register::CLevel]);
}

#[test]
fn register_index_addresses() {
    assert_eq!(0u8.address(), 0);
    assert_eq!(15u8.address(), 15);
    assert_eq!(16u8.address(), 15);
    assert_eq!(255u8.address(), 15);
    assert_eq!(Register::CLevel.address(), 10);
    assert_eq!(200u8.address().address(), 200u8.address());
}

#[test]
fn command_new_and_as_array() {
    let cmd = Command::new(Register::NoiseFreq5bit, 0x1F);
    assert_eq!(cmd, Command { register: 6, value: 0x1F });
    assert_eq!(cmd.as_array(), [6, 0x1F]);
    assert_eq!(Command::new(42u8, 7).as_array(), [15, 7]);
}

#[test]
fn mixer_byte_layout() {
    let all_off = IoPortMixerSettings::default();
    assert_eq!(all_off.as_u8(), 0xFF);
    let all_on = IoPortMixerSettings {
        io_port_a_mode: IoPortMode::Input,
        io_port_b_mode: IoPortMode::Input,
        noise_ch_c: true,
        noise_ch_b: true,
        noise_ch_a: true,
        tone_ch_c: true,
        tone_ch_b: true,
        tone_ch_a: true,
    };
    assert_eq!(all_on.as_u8(), 0x00);
    let only_b_input = IoPortMixerSettings { io_port_b_mode: IoPortMode::Input, ..Default::default() };
    assert_eq!(only_b_input.as_u8(), 0b0111_1111);
    let noise_c = IoPortMixerSettings { noise_ch_c: true, ..Default::default() };
    assert_eq!(noise_c.as_u8(), 0b1101_1111);
    let tone_b = IoPortMixerSettings { tone_ch_b: true, ..Default::default() };
    assert_eq!(tone_b.as_u8(), 0b1111_1101);
}

#[test]
fn channel_setup_changes_one_channel() {
    let mut settings = IoPortMixerSettings::default();
    let returned = settings.channel_setup(AudioChannel::B, true, false);
    assert_eq!(returned, settings);
    assert!(settings.tone_ch_b && !settings.noise_ch_b);
    assert_eq!(settings.as_u8(), 0b1111_1101);
    settings.channel_setup(AudioChannel::C, false, true);
    assert_eq!(settings.as_u8(), 0b1101_1101);
    settings.channel_setup(AudioChannel::A, true, true);
    assert_eq!(settings.as_u8(), 0b1101_0100);
}

#[test]
fn io_port_mode_changes_one_port() {
    let mut settings = IoPortMixerSettings::default();
    let returned = settings.io_port_mode(IoPort::B, IoPortMode::Input);
    assert_eq!(returned, settings);
    assert_eq!(settings.io_port_b_mode, IoPortMode::Input);
    assert_eq!(settings.io_port_a_mode, IoPortMode::Output);
    assert_eq!(settings.as_u8(), 0b0111_1111);
}

#[test]
fn port_registers_and_chip_modes() {
    assert_eq!(IoPort::A.register(), 0xE);
    assert_eq!(IoPort::B.register(), 0xF);
    assert_eq!(ChipMode::INACTIVE.code(), 0);
    assert_eq!(ChipMode::READ.code(), 1);
    assert_eq!(ChipMode::WRITE.code(), 2);
    assert_eq!(ChipMode::ADDRESS.code(), 3);
}

#[test]
fn envelopes_module_bytes() {
    assert_eq!(envelopes::Envelope::Builtin(BuiltinEnvelopeShape::Saw).to_byte(), 0b1100);
    assert_eq!(envelopes::Envelope::InvertedBuiltin(BuiltinEnvelopeShape::Saw).to_byte(), 0b1000);
    assert_eq!(envelopes::Envelope::CustomBuiltin(3).to_byte(), 3);
    assert_eq!(envelopes::EnvelopeFrequency::Hertz(1).as_ep(2_000_000), Ok(7812));
}
