//! The chip: every operation is a sequence of register writes handed to a
//! [`CommandOutput`].
use vstd::prelude::*;
use crate::audio::{AudioChannel, Envelope, EnvelopeFrequency};
use crate::command::{Command, CommandOutput};
use crate::errors::Error;
use crate::io::{IoPort, IoPortMixerSettings, Read, ReadDriver};
use crate::register::{LEVEL_REGS, MAX_REGISTER, Register, RegisterIndex};

verus! {

/// A PSG chip struct.
///
/// The master_clock_frequency value is used to convert a frequency into a tone period.
///
/// The contracts of its methods state which commands they hand to
/// `command_output`, through the output's own record of what it was sent,
/// [`CommandOutput::sent`].
#[derive(Debug)]
pub struct PSG<R, W> {
    pub command_output: W,
    pub read_driver: ReadDriver<R>,
    pub master_clock_frequency: u32,
}

/// The read driver of a chip that is never read back.
#[derive(Debug, Clone, Copy, PartialEq, Eq, Structural)]
pub struct NoRead;

/// The command that writes `value` into register `register`.
pub open spec fn cmd(register: u8, value: u8) -> Command {
    Command { register, value }
}

/// Every command of `s` addresses one of the sixteen registers.
pub open spec fn all_addressed(s: Seq<Command>) -> bool {
    forall|i: int| 0 <= i < s.len() ==> #[trigger] s[i].register <= MAX_REGISTER
}

impl<R, W: CommandOutput> PSG<R, W> {
    /// The commands that `command_output` has been handed, oldest first.
    pub open spec fn sent(&self) -> Seq<Command> {
        self.command_output.sent()
    }
}

impl<R, W> PSG<R, W> {
    /// Everything but the command output is as in `other`.
    pub open spec fn same_setup(&self, other: &Self) -> bool {
        &&& self.master_clock_frequency == other.master_clock_frequency
        &&& self.read_driver == other.read_driver
    }
}

impl<R: Read, W: CommandOutput> PSG<R, W> {
    /// Create a new struct for a PSG whose registers can be read back through `read_driver`.
    ///
    /// The datasheet specifies a master clock frequency range of 1-2MHz (2-4MHz with SEL low on YM2149 chips)
    pub fn with_read_driver(command_output: W, master_clock_frequency: u32, read_driver: ReadDriver<R>) -> (r: Self)
        ensures
            r.command_output == command_output,
            r.read_driver == read_driver,
            r.master_clock_frequency == master_clock_frequency,
    {
        Self { command_output, read_driver, master_clock_frequency }
    }
}

impl<W: CommandOutput> PSG<NoRead, W> {
    /// Create a new struct for the PSG.
    ///
    /// The datasheet specifies a master clock frequency range of 1-2MHz (2-4MHz with SEL low on YM2149 chips)
    pub fn new(command_output: W, master_clock_frequency: u32) -> (r: Self)
        ensures
            r.command_output == command_output,
            r.read_driver == ReadDriver(NoRead),
            r.master_clock_frequency == master_clock_frequency,
    {
        let read_driver = ReadDriver(NoRead);
        Self { command_output, read_driver, master_clock_frequency }
    }
}

impl<R, W: CommandOutput> PSG<R, W> {
    /// Send a [`Command`] that writes `value` into the register that `register` addresses.
    pub fn command<RI: RegisterIndex>(&mut self, register: RI, value: u8)
        ensures
            final(self).sent() == old(self).sent().push(
                cmd(register.spec_address().spec_address(), value),
            ),
            final(self).same_setup(old(self)),
            all_addressed(old(self).sent()) ==> all_addressed(final(self).sent()),
    {
        let c = Command::new(register.address(), value);
        self.command_output.execute(c);
    }

    /// Setup the IO ports and the internal mixer according to the [`IoPortMixerSettings`] specified.
    pub fn setup_io_and_mixer(&mut self, settings: IoPortMixerSettings)
        ensures
            final(self).sent() == old(self).sent().push(cmd(7, settings.spec_byte())),
            final(self).same_setup(old(self)),
            all_addressed(old(self).sent()) ==> all_addressed(final(self).sent()),
    {
        self.command(Register::IoPortMixerSettings, settings.as_u8());
    }

    /// Write a value to one of the chip's GPIO ports (register 0xE for A, 0xF for B).
    pub fn write_io(&mut self, port: IoPort, value: u8)
        ensures
            final(self).sent() == old(self).sent().push(cmd(port.spec_register(), value)),
            final(self).same_setup(old(self)),
            all_addressed(old(self).sent()) ==> all_addressed(final(self).sent()),
    {
        self.command(port.register(), value);
    }

    /// Set the envelope generator's frequency using an [`EnvelopeFrequency`].
    ///
    /// On success the period `EP` is written, its high byte into register 12 and
    /// then its low byte into register 11, and returned; on failure nothing is written.
    pub fn set_envelope_frequency(&mut self, frequency: EnvelopeFrequency) -> (r: Result<u16, Error>)
        requires
            frequency.fits(old(self).master_clock_frequency),
        ensures
            r == frequency.spec_ep(old(self).master_clock_frequency),
            final(self).sent() == (match r {
                Ok(ep) => old(self).sent().push(cmd(12, (ep / 256) as u8)).push(
                    cmd(11, (ep % 256) as u8),
                ),
                Err(_) => old(self).sent(),
            }),
            r is Err ==> *final(self) == *old(self),
            final(self).same_setup(old(self)),
            all_addressed(old(self).sent()) ==> all_addressed(final(self).sent()),
    {
        let r: u16 = frequency.as_ep(self.master_clock_frequency)?;

        let rough: u8 = (r / 256) as u8; // high byte
        let fine: u8 = (r % 256) as u8; // low byte

        self.command(Register::EFreq8bitRoughAdj, rough);
        self.command(Register::EFreq8bitFineAdj, fine);

        Ok(r)
    }

    /// Set the envelope generator's shape from an [`Envelope`] (register 13).
    pub fn set_envelope_shape(&mut self, envelope: Envelope)
        ensures
            final(self).sent() == old(self).sent().push(cmd(13, envelope.spec_byte())),
            final(self).same_setup(old(self)),
            all_addressed(old(self).sent()) ==> all_addressed(final(self).sent()),
    {
        self.command(Register::EShape, u8::from(&envelope));
    }

    /// Play a tone with a `TP` of `period` on an [`AudioChannel`].
    ///
    /// The formula for the frequency is ``f = f_Master / (16 * TP)``.
    /// The period has 12 bits (the rough register holds 4): a period above 0xFFF
    /// is refused and nothing is written; otherwise the low byte of the period goes
    /// to the channel's fine register (2 * channel) and the high byte to its rough
    /// register (2 * channel + 1).
    pub fn tone(&mut self, channel: AudioChannel, period: u16) -> (r: Result<(), Error>)
        ensures
            period > 0x0FFF ==> r == Err::<(), Error>(Error::TonePeriodOutOfRange(period))
                && *final(self) == *old(self),
            period <= 0x0FFF ==> r is Ok && final(self).sent() == old(self).sent().push(
                cmd((2 * channel.spec_index()) as u8, (period % 256) as u8),
            ).push(cmd((2 * channel.spec_index() + 1) as u8, (period / 256) as u8)),
            final(self).same_setup(old(self)),
            all_addressed(old(self).sent()) ==> all_addressed(final(self).sent()),
    {
        if period > 0x0FFF {
            return Err(Error::TonePeriodOutOfRange(period));
        }

        let bytes: [u8; 2] = [(period % 256) as u8, (period / 256) as u8];
        let register_pair_index: u8 = (channel.index() * 2) as u8;

        self.command(register_pair_index, bytes[0]); // Fine adjustment, 8 bits
        self.command(register_pair_index + 1, bytes[1]); // Rough adjustment, 4 bits
        Ok(())
    }

    /// Set the period `NP` of the noise generator (register 6).
    ///
    /// Mask: 0x1F. A period above 0x1F is refused and nothing is written.
    pub fn noise(&mut self, period: u8) -> (r: Result<(), Error>)
        ensures
            period <= 0x1F ==> r is Ok && final(self).sent() == old(self).sent().push(cmd(6, period)),
            period > 0x1F ==> r == Err::<(), Error>(Error::NoisePeriodOutOfRange(period))
                && *final(self) == *old(self),
            final(self).same_setup(old(self)),
            all_addressed(old(self).sent()) ==> all_addressed(final(self).sent()),
    {
        if period <= 0x1F {
            self.command(Register::NoiseFreq5bit, period);
            Ok(())
        } else {
            Err(Error::NoisePeriodOutOfRange(period))
        }
    }

    /// Set the volume of an [`AudioChannel`] (registers 8, 9 and 10).
    ///
    /// The channel level registers store 5 bits of data per channel, of which the most
    /// significant bit (M) makes the envelope generator control the level.
    /// A level above 0x1F is refused and nothing is written.
    pub fn level(&mut self, channel: AudioChannel, level: u8) -> (r: Result<(), Error>)
        ensures
            level <= 0x1F ==> r is Ok && final(self).sent() == old(self).sent().push(
                cmd((8 + channel.spec_index()) as u8, level),
            ),
            level > 0x1F ==> r == Err::<(), Error>(Error::LevelOutOfRange(level))
                && *final(self) == *old(self),
            final(self).same_setup(old(self)),
            all_addressed(old(self).sent()) ==> all_addressed(final(self).sent()),
    {
        if level <= 0x1F {
            let masked: u8 = level & 0x1F;
            assert(level <= 0x1F ==> level & 0x1F == level) by (bit_vector);
            self.command(LEVEL_REGS[channel.index()].number(), masked);
            Ok(())
        } else {
            Err(Error::LevelOutOfRange(level))
        }
    }

    /// Writes 0 to all registers of the PSG, register 0 first.
    pub fn manual_reset(&mut self)
        ensures
            final(self).sent() == old(self).sent() + Seq::new(16, |i: int| cmd(i as u8, 0)),
            final(self).same_setup(old(self)),
            all_addressed(old(self).sent()) ==> all_addressed(final(self).sent()),
    {
        let mut r: u8 = 0;
        while r <= 15
            invariant
                r <= 16,
                self.sent() == old(self).sent() + Seq::new(r as nat, |i: int| cmd(i as u8, 0)),
                self.same_setup(old(self)),
                all_addressed(old(self).sent()) ==> all_addressed(self.sent()),
            decreases 16 - r,
        {
            self.command(r, 0);
            assert(Seq::new((r + 1) as nat, |i: int| cmd(i as u8, 0)) =~= Seq::new(
                r as nat,
                |i: int| cmd(i as u8, 0),
            ).push(cmd(r, 0)));
            r = r + 1;
        }
    }
}

impl<R: Read, W> PSG<R, W> {
    /// Reads a value from a given register through the chip's read driver.
    ///
    /// Reading makes the chip drive the data bus with 5V: make sure the board
    /// can handle TTL levels, or use a level shifter.
    /// The result is one that the driver gives for the register that `register` addresses.
    pub fn read<RI: RegisterIndex>(&self, register: RI) -> (r: Result<u8, Error>)
        ensures
            self.read_driver.0.may_read(register.spec_address(), r),
    {
        self.read_driver.0.read(register)
    }
}

/// The fine (low) and rough (high) bytes written for a 16-bit period put the
/// period back together: `rough * 256 + fine == period`.
pub proof fn lemma_register_pair_encodes(period: u16)
    ensures
        ((period / 256) as u8) * 256 + ((period % 256) as u8) == period,
        period <= 0x0FFF ==> period / 256 <= 0x0F,
{
}

} // verus!
