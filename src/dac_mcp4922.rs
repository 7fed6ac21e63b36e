//! Command encoding and chip-select handshake of a dual-channel 12-bit
//! serial-input converter.

use vstd::prelude::*;

verus! {

/// Largest magnitude a 12-bit converter accepts.
pub const DAC_OUTPUT_MAX: u16 = 4095;

/// A converter magnitude, always in `0..=4095`.
#[derive(Clone, Copy, Debug)]
pub struct DacOutput {
    value: u16,
}

impl View for DacOutput {
    type V = u16;

    closed spec fn view(&self) -> u16 {
        self.value
    }
}

impl DacOutput {
    #[verifier::type_invariant]
    spec fn in_range(self) -> bool {
        self.value <= DAC_OUTPUT_MAX
    }

    /// The magnitude `value`, or `None` where it does not fit in 12 bits.
    pub fn new(value: u16) -> (r: Option<DacOutput>)
        ensures
            r is Some <==> value <= DAC_OUTPUT_MAX,
            r is Some ==> r->0@ == value,
    {
        if value <= DAC_OUTPUT_MAX {
            Some(DacOutput { value })
        } else {
            None
        }
    }

    pub fn val(&self) -> (r: u16)
        ensures
            r == self@,
            r <= DAC_OUTPUT_MAX,
    {
        proof {
            use_type_invariant(self);
        }
        self.value
    }
}

#[derive(Clone, Copy, Debug, PartialEq, Eq, Structural)]
pub enum Channel {
    ChannelA,
    ChannelB,
}

/// The channel-select bit of a command word.
pub open spec fn channel_bit(c: Channel) -> u8 {
    match c {
        Channel::ChannelA => 0,
        Channel::ChannelB => 1,
    }
}

impl From<Channel> for u8 {
    fn from(c: Channel) -> (r: u8)
        ensures
            r == channel_bit(c),
    {
        match c {
            Channel::ChannelA => 0,
            Channel::ChannelB => 1,
        }
    }
}

impl vstd::std_specs::convert::FromSpecImpl<Channel> for u8 {
    open spec fn obeys_from_spec() -> bool {
        true
    }

    open spec fn from_spec(c: Channel) -> u8 {
        channel_bit(c)
    }
}

#[derive(Debug)]
pub enum Error<E> {
    /// The serial transfer failed.
    Spi(E),
}

impl<E> From<E> for Error<E> {
    fn from(e: E) -> (r: Error<E>)
        ensures
            r == Error::Spi(e),
    {
        Error::Spi(e)
    }
}

impl<E> vstd::std_specs::convert::FromSpecImpl<E> for Error<E> {
    open spec fn obeys_from_spec() -> bool {
        true
    }

    open spec fn from_spec(e: E) -> Error<E> {
        Error::Spi(e)
    }
}

/// The 16-bit command word: magnitude in bits 11..0, bit 12 set (active,
/// not shut down), bit 13 clear (1x gain), bit 14 clear (unbuffered
/// reference), bit 15 the channel.
pub open spec fn command_word(value: nat, c: Channel) -> nat {
    value + 0x1000 + 0x8000 * (channel_bit(c) as nat)
}

/// The two bytes of a command word as they go on the wire, high byte first.
pub open spec fn command_bytes(value: nat, c: Channel) -> (u8, u8) {
    ((command_word(value, c) / 256) as u8, (command_word(value, c) % 256) as u8)
}

/// Builds the two bytes that command `data` on `channel`.
pub fn encode_command(data: DacOutput, channel: Channel) -> (r: [u8; 2])
    ensures
        (r[0], r[1]) == command_bytes(data@ as nat, channel),
{
    let v = data.val();
    let mut buffer = [0u8; 2];
    // bits 7 through 0 of the magnitude
    buffer[1] = (v % 256) as u8;
    // bits 11 through 8, then active operation, 1x gain and the channel
    buffer[0] = (v / 256) as u8 + 0x10 + u8::from(channel) * 0x80;
    buffer
}

/// Whether `w` is the two-byte word that commands `value` on `c`.
pub open spec fn is_command(w: [u8; 2], value: nat, c: Channel) -> bool {
    (w[0], w[1]) == command_bytes(value, c)
}

/// The serial link to the converter.
pub trait SpiWrite {
    type Error;

    /// The word handed over in the last transfer.
    spec fn last_sent(&self) -> [u8; 2];

    /// Whether the last transfer succeeded.
    spec fn last_write_ok(&self) -> bool;

    fn write(&mut self, words: &[u8; 2]) -> (r: Result<(), Self::Error>)
        ensures
            final(self).last_sent() == *words,
            r is Ok <==> final(self).last_write_ok(),
    ;
}

/// The converter's chip-select line (active low).
pub trait OutputPin {
    /// Whether the line is driven high.
    spec fn is_high(&self) -> bool;

    fn set_low(&mut self)
        ensures
            !final(self).is_high(),
    ;

    fn set_high(&mut self)
        ensures
            final(self).is_high(),
    ;
}

/// Driver of the converter over a serial link and a chip-select line.
pub struct Mcp4922<SPI, CS> {
    spi: SPI,
    cs: CS,
    /// The words this driver has handed to the link, oldest first.
    sent: Ghost<Seq<[u8; 2]>>,
}

impl<SPI: SpiWrite, CS: OutputPin> Mcp4922<SPI, CS> {
    /// The device is not selected.
    pub closed spec fn deselected(&self) -> bool {
        self.cs.is_high()
    }

    /// The words this driver has handed to the serial link, oldest first.
    pub closed spec fn sent(&self) -> Seq<[u8; 2]> {
        self.sent@
    }

    /// The word the serial link reports as handed over last.
    pub closed spec fn link_last_sent(&self) -> [u8; 2] {
        self.spi.last_sent()
    }

    /// Whether the last transfer succeeded.
    pub closed spec fn last_write_ok(&self) -> bool {
        self.spi.last_write_ok()
    }

    /// Takes the link and the select line, and deselects the device.
    pub fn new(spi: SPI, cs: CS) -> (r: Self)
        ensures
            r.deselected(),
            r.sent() == Seq::<[u8; 2]>::empty(),
    {
        let mut cs = cs;
        // unselect the device
        cs.set_high();
        Mcp4922 { spi, cs, sent: Ghost(Seq::empty()) }
    }

    /// Commands channel A, then channel B; stops at the first failed
    /// transfer. The device is deselected on return.
    pub fn output_ab(&mut self, output_a: DacOutput, output_b: DacOutput) -> (r: Result<(), SPI::Error>)
        ensures
            final(self).deselected(),
            r is Ok <==> final(self).last_write_ok(),
            final(self).sent().len() == old(self).sent().len() + 1 || final(self).sent().len() == old(
                self,
            ).sent().len() + 2,
            final(self).sent().subrange(0, old(self).sent().len() as int) == old(self).sent(),
            is_command(final(self).sent()[old(self).sent().len() as int], output_a@ as nat, Channel::ChannelA),
            final(self).sent().len() == old(self).sent().len() + 2 ==> is_command(
                final(self).sent()[old(self).sent().len() + 1int],
                output_b@ as nat,
                Channel::ChannelB,
            ),
            final(self).sent().len() == old(self).sent().len() + 1 ==> r is Err,
            r is Ok ==> final(self).sent().len() == old(self).sent().len() + 2,
            final(self).link_last_sent() == final(self).sent().last(),
    {
        self.output(output_a, Channel::ChannelA)?;
        self.output(output_b, Channel::ChannelB)
    }

    /// Selects the device, sends the command word for `data` on `channel`
    /// and deselects it whether or not the transfer succeeded; returns the
    /// transfer's result.
    pub fn output(&mut self, data: DacOutput, channel: Channel) -> (r: Result<(), SPI::Error>)
        ensures
            final(self).deselected(),
            r is Ok <==> final(self).last_write_ok(),
            final(self).sent().len() == old(self).sent().len() + 1,
            final(self).sent().drop_last() == old(self).sent(),
            is_command(final(self).sent().last(), data@ as nat, channel),
            final(self).link_last_sent() == final(self).sent().last(),
    {
        self.cs.set_low();
        let buffer = encode_command(data, channel);
        let res = self.spi.write(&buffer);
        self.sent = Ghost(self.sent@.push(buffer));
        self.cs.set_high();
        res
    }
}

} // verus!
