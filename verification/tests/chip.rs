use lib::audio::{AudioChannel, BuiltinEnvelopeShape, Envelope, EnvelopeFrequency};
use lib::chip::{NoRead, PSG};
use lib::command::{Command, CommandLog};
use lib::errors::Error;
use lib::io::{IoPort, IoPortMixerSettings, IoPortMode, Read, ReadDriver};
use lib::register::{Register, RegisterIndex};


struct Doubler;

impl Read for Doubler {
    fn may_read(&self, register: u8, result: Result<u8, Error>) -> bool {
        result == Ok(register * 2)
    }

    fn read<R: RegisterIndex>(&self, register: R) -> Result<u8, Error> {
        Ok(register.address() * 2)
    }
}

fn chip() -> PSG<NoRead, CommandLog> {
    PSG::new(CommandLog::default(), 2_000_000)
}

fn c(register: u8, value: u8) -> Command {
    Command { register, value }
}

#[test]
fn new_chip_sends_nothing() {
    let chip = chip();
    assert_eq!(chip.master_clock_frequency, 2_000_000);
    assert!(chip.command_output.commands.is_empty());
    assert_eq!(chip.read_driver.0, NoRead);
}

#[test]
fn command_clamps_register_numbers() {
    let mut chip = chip();
    chip.command(3u8, 0x42);
    chip.command(200u8, 0x01);
    chip.command(Register::EShape, 0x0E);
    assert_eq!(chip.command_output.commands, vec![c(3, 0x42), c(15, 0x01), c(13, 0x0E)]);
}

#[test]
fn setup_io_and_mixer_writes_register_7() {
    let mut chip = chip();
    let settings = IoPortMixerSettings { tone_ch_a: true, ..Default::default() };
    chip.setup_io_and_mixer(settings);
    assert_eq!(chip.command_output.commands, vec![c(7, 0b1111_1110)]);
}

#[test]
fn write_io_targets_port_registers() {
    let mut chip = chip();
    chip.write_io(IoPort::A, 0x12);
    chip.write_io(IoPort::B, 0x34);
    assert_eq!(chip.command_output.commands, vec![c(0xE, 0x12), c(0xF, 0x34)]);
}

#[test]
fn set_envelope_frequency_writes_rough_then_fine() {
    let mut chip = chip();
    let r = chip.set_envelope_frequency(EnvelopeFrequency::Integer(0x1234));
    assert_eq!(r, Ok(0x1234));
    assert_eq!(chip.command_output.commands, vec![c(12, 0x12), c(11, 0x34)]);

    let r = chip.set_envelope_frequency(EnvelopeFrequency::Hertz(1));
    assert_eq!(r, Ok(7812));
    assert_eq!(chip.command_output.commands[2..], [c(12, 0x1E), c(11, 0x84)]);
}

#[test]
fn set_envelope_frequency_error_sends_nothing() {
    let mut chip = chip();
    assert_eq!(chip.set_envelope_frequency(EnvelopeFrequency::Hertz(0)), Err(Error::DivisionByZero));
    assert!(chip.command_output.commands.is_empty());
}

#[test]
fn set_envelope_shape_writes_register_13() {
    let mut chip = chip();
    chip.set_envelope_shape(Envelope::Shape(BuiltinEnvelopeShape::Saw));
    chip.set_envelope_shape(Envelope::InvertedShape(BuiltinEnvelopeShape::Saw));
    chip.set_envelope_shape(Envelope::Raw(0x0B));
    assert_eq!(chip.command_output.commands, vec![c(13, 0b1100), c(13, 0b1000), c(13, 0x0B)]);
}

#[test]
fn tone_splits_period_over_register_pair() {
    let mut chip = chip();
    assert_eq!(chip.tone(AudioChannel::A, 0x1A5), Ok(()));
    assert_eq!(chip.tone(AudioChannel::B, 0x0FFF), Ok(()));
    assert_eq!(chip.tone(AudioChannel::C, 0), Ok(()));
    assert_eq!(
        chip.command_output.commands,
        vec![c(0, 0xA5), c(1, 0x01), c(2, 0xFF), c(3, 0x0F), c(4, 0), c(5, 0)]
    );
}

#[test]
fn tone_rejects_long_periods() {
    let mut chip = chip();
    assert_eq!(chip.tone(AudioChannel::A, 4096), Err(Error::TonePeriodOutOfRange(4096)));
    assert_eq!(chip.tone(AudioChannel::B, 4097), Err(Error::TonePeriodOutOfRange(4097)));
    assert_eq!(chip.tone(AudioChannel::A, u16::MAX), Err(Error::TonePeriodOutOfRange(u16::MAX)));
    assert!(chip.command_output.commands.is_empty());
}

#[test]
fn noise_accepts_five_bits() {
    let mut chip = chip();
    assert_eq!(chip.noise(0x1F), Ok(()));
    assert_eq!(chip.noise(0), Ok(()));
    assert_eq!(chip.noise(0x20), Err(Error::NoisePeriodOutOfRange(0x20)));
    assert_eq!(chip.command_output.commands, vec![c(6, 0x1F), c(6, 0)]);
}

#[test]
fn level_writes_level_registers() {
    let mut chip = chip();
    assert_eq!(chip.level(AudioChannel::A, 0x0F), Ok(()));
    assert_eq!(chip.level(AudioChannel::B, 0x10), Ok(()));
    assert_eq!(chip.level(AudioChannel::C, 0x1F), Ok(()));
    assert_eq!(chip.level(AudioChannel::C, 0x20), Err(Error::LevelOutOfRange(0x20)));
    assert_eq!(chip.command_output.commands, vec![c(8, 0x0F), c(9, 0x10), c(10, 0x1F)]);
}

#[test]
fn manual_reset_zeroes_every_register() {
    let mut chip = chip();
    chip.manual_reset();
    let expected: Vec<Command> = (0..16u8).map(|r| c(r, 0)).collect();
    assert_eq!(chip.command_output.commands, expected);
}

#[test]
fn read_goes_through_the_read_driver() {
    let chip = PSG::with_read_driver(CommandLog::default(), 1_000_000, ReadDriver(Doubler));
    assert_eq!(chip.master_clock_frequency, 1_000_000);
    assert_eq!(chip.read(5u8), Ok(10));
    assert_eq!(chip.read(Register::DataIoB), Ok(30));
    assert_eq!(chip.read(99u8), Ok(30));
    let driver = &chip.read_driver.0;
    assert!(driver.may_read(15, chip.read(99u8)));
    assert!(driver.may_read(7, chip.read(Register::IoPortMixerSettings)));
}

#[test]
fn every_issued_command_addresses_a_register() {
    let mut chip = chip();
    chip.command(255u8, 1);
    chip.manual_reset();
    chip.write_io(IoPort::B, 3);
    assert!(chip.command_output.commands.iter().all(|cmd| cmd.register <= 15));
}

#[test]
fn failed_operations_leave_the_output_untouched() {
    let mut chip = chip();
    let _ = chip.tone(AudioChannel::A, 5000);
    let _ = chip.noise(200);
    let _ = chip.level(AudioChannel::B, 200);
    let _ = chip.set_envelope_frequency(EnvelopeFrequency::BeatsPerMinute(0));
    assert!(chip.command_output.commands.is_empty());
    let mut settings = IoPortMixerSettings::default();
    settings.io_port_mode(IoPort::A, IoPortMode::Input);
    chip.setup_io_and_mixer(settings);
    assert_eq!(chip.command_output.commands, vec![c(7, 0b1011_1111)]);
}
