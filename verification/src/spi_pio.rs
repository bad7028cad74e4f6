//! The 9-bit serial transport.
//!
//! Every byte travels as a frame of nine bits, most significant bit first:
//! one flag that tells data from command, then the byte. A hardware
//! sequencer shifts the frames out of the top of 32 bit words that it takes
//! from a transmit queue. This module forms those words and keeps them in
//! order until the queue has room for them.

use vstd::prelude::*;

verus! {

/// The error type of `display_interface`, carried through as it is.
#[verifier::external_type_specification]
#[verifier::external_body]
pub struct ExDisplayError(display_interface::DisplayError);

/// The data handed to the transport, in the forms a display interface
/// knows.
#[derive(Debug, PartialEq, Eq)]
pub enum DataFormat {
    /// Unsigned bytes.
    U8(Vec<u8>),
    /// Unsigned 16 bit values in the byte order of the system.
    U16(Vec<u16>),
    /// Unsigned 16 bit values to be sent in big endian byte order.
    U16BE(Vec<u16>),
    /// Unsigned 16 bit values to be sent in little endian byte order.
    U16LE(Vec<u16>),
    /// A run of unsigned bytes.
    U8Iter(Vec<u8>),
    /// A run of unsigned 16 bit values to be sent in big endian byte order.
    U16BEIter(Vec<u16>),
    /// A run of unsigned 16 bit values to be sent in little endian byte
    /// order.
    U16LEIter(Vec<u16>),
}

/// How the sequencer is set up.
#[derive(Copy, Clone, Debug, PartialEq, Eq, Structural)]
pub struct SequencerConfig {
    /// Clock, data and chip select are outputs.
    pub pins_are_outputs: bool,
    /// The most significant bit of a word leaves first.
    pub shift_msb_first: bool,
    /// Number of bits shifted out of each word.
    pub shift_threshold: u8,
    /// A word is pulled on request, not whenever the shift register runs
    /// empty.
    pub auto_fill: bool,
    /// Both halves of the queue serve transmission; nothing is received.
    pub tx_only: bool,
    /// Clock divider; 1 runs the sequencer at full speed.
    pub clock_divider: u8,
}

/// The word for a command byte: the byte in bits 30 to 23, flag bit 31
/// clear.
pub open spec fn command_word(val: u8) -> u32 {
    (val * 0x80_0000) as u32
}

/// The word for a data byte: the byte in bits 30 to 23, flag bit 31 set.
pub open spec fn data_word(val: u8) -> u32 {
    (0x8000_0000 + val * 0x80_0000) as u32
}

/// The words for a run of command bytes.
pub open spec fn command_words(bytes: Seq<u8>) -> Seq<u32> {
    Seq::new(bytes.len(), |i: int| command_word(bytes[i]))
}

/// The words for a run of data bytes.
pub open spec fn data_words(bytes: Seq<u8>) -> Seq<u32> {
    Seq::new(bytes.len(), |i: int| data_word(bytes[i]))
}

/// The words for a run of 16 bit values sent in big endian byte order: for
/// each value the word of its high byte, then the word of its low byte.
pub open spec fn data_words_be(values: Seq<u16>) -> Seq<u32> {
    Seq::new(
        2 * values.len(),
        |i: int|
            if i % 2 == 0 {
                data_word((values[i / 2] / 256) as u8)
            } else {
                data_word((values[i / 2] % 256) as u8)
            },
    )
}

/// The words that sending `buf` as data appends to the queue.
pub open spec fn sent_as_data(buf: DataFormat) -> Seq<u32> {
    match buf {
        DataFormat::U8(bytes) => data_words(bytes@),
        DataFormat::U16BEIter(values) => data_words_be(values@),
        _ => Seq::empty(),
    }
}

/// The nine bits of a frame are the top nine bits of its word, the flag
/// first: they read `val` for a command and `256 + val` for data, and the
/// twenty-three bits below them are clear.
pub proof fn lemma_frame_bits(val: u8)
    ensures
        command_word(val) >> 23 == val,
        data_word(val) >> 23 == 256 + val,
        command_word(val) & 0x7f_ffff == 0,
        data_word(val) & 0x7f_ffff == 0,
        command_word(val) == (val as u32) << 23,
        data_word(val) == 0x8000_0000u32 | ((val as u32) << 23),
{
    let v = val as u32;
    assert(v * 0x80_0000 == v << 23 && 0x8000_0000u32 + v * 0x80_0000 == 0x8000_0000u32 | (v
        << 23) && (v << 23) >> 23 == v && (0x8000_0000u32 | (v << 23)) >> 23 == 256 + v && (v
        << 23) & 0x7f_ffff == 0 && (0x8000_0000u32 | (v << 23)) & 0x7f_ffff == 0)
        by (bit_vector)
        requires
            v < 256,
    ;
}

/// The transmit side of the 9-bit serial transport.
pub struct Spi9Bit {
    // words that the sequencer's queue has not taken yet, oldest first
    pending: Vec<u32>,
}

impl View for Spi9Bit {
    type V = Seq<u32>;

    /// The words that wait for the sequencer's queue, oldest first.
    closed spec fn view(&self) -> Seq<u32> {
        self.pending@
    }
}

impl Spi9Bit {
    /// A transport with nothing to send.
    pub fn new() -> (spi: Spi9Bit)
        ensures
            spi@ == Seq::<u32>::empty(),
    {
        Spi9Bit { pending: Vec::new() }
    }

    /// The set-up of the sequencer: all three lines are outputs, words leave
    /// most significant bit first, nine bits of each, pulled on request; the
    /// queue only transmits; the clock is not divided.
    pub fn config() -> (config: SequencerConfig)
        ensures
            config == (SequencerConfig {
                pins_are_outputs: true,
                shift_msb_first: true,
                shift_threshold: 9,
                auto_fill: false,
                tx_only: true,
                clock_divider: 1,
            }),
    {
        SequencerConfig {
            pins_are_outputs: true,
            shift_msb_first: true,
            shift_threshold: 9,  // 9-bit mode
            auto_fill: false,
            tx_only: true,
            clock_divider: 1,  // run at full speed
        }
    }

    /// Queues one data byte.
    pub fn write_data(&mut self, val: u8)
        ensures
            final(self)@ == old(self)@.push(data_word(val)),
    {
        proof {
            lemma_frame_bits(val);
        }
        self.pending.push(0x80000000 | ((val as u32) << 23));
    }

    /// Queues one command byte.
    pub fn write_command(&mut self, val: u8)
        ensures
            final(self)@ == old(self)@.push(command_word(val)),
    {
        proof {
            lemma_frame_bits(val);
        }
        self.pending.push((val as u32) << 23);
    }

    /// Queues a batch of commands. Only plain bytes can be sent as
    /// commands.
    pub fn send_commands(&mut self, cmd: DataFormat) -> (r: Result<(), display_interface::DisplayError>)
        requires
            cmd is U8,
        ensures
            r is Ok,
            final(self)@ == old(self)@ + command_words(cmd->U8_0@),
    {
        match cmd {
            DataFormat::U8(cmds) => {
                let count = cmds.len();
                let mut n: usize = 0;
                while n < count
                    invariant
                        n <= count,
                        count == cmds@.len(),
                        self@ == old(self)@ + command_words(cmds@.take(n as int)),
                    decreases count - n,
                {
                    self.write_command(cmds[n]);
                    n = n + 1;
                }
                assert(cmds@.take(count as int) =~= cmds@);
            },
            _ => {},
        }
        Ok(())
    }

    /// Queues data: plain bytes one for one, or 16 bit values as two bytes
    /// each, high byte first. No other form can be sent.
    pub fn send_data(&mut self, buf: DataFormat) -> (r: Result<(), display_interface::DisplayError>)
        requires
            buf is U8 || buf is U16BEIter,
        ensures
            r is Ok,
            final(self)@ == old(self)@ + sent_as_data(buf),
    {
        match buf {
            DataFormat::U8(bytes) => {
                let count = bytes.len();
                let mut n: usize = 0;
                while n < count
                    invariant
                        n <= count,
                        count == bytes@.len(),
                        self@ == old(self)@ + data_words(bytes@.take(n as int)),
                    decreases count - n,
                {
                    self.write_data(bytes[n]);
                    n = n + 1;
                }
                assert(bytes@.take(count as int) =~= bytes@);
            },
            DataFormat::U16BEIter(values) => {
                let count = values.len();
                let mut n: usize = 0;
                while n < count
                    invariant
                        n <= count,
                        count == values@.len(),
                        self@ == old(self)@ + data_words_be(values@.take(n as int)),
                    decreases count - n,
                {
                    let raw = values[n];
                    self.write_data((raw / 256) as u8);
                    self.write_data((raw % 256) as u8);
                    n = n + 1;
                }
                assert(values@.take(count as int) =~= values@);
            },
            _ => {},
        }
        Ok(())
    }

    /// Number of words that wait for the sequencer's queue.
    pub fn pending(&self) -> (n: usize)
        ensures
            n == self@.len(),
    {
        self.pending.len()
    }

    /// Decides what to do about the sequencer's queue: while it is full, or
    /// nothing waits, nothing is pushed; otherwise the oldest waiting word
    /// is handed out to be pushed.
    pub fn poll(&mut self, queue_full: bool) -> (word: Option<u32>)
        ensures
            queue_full || old(self)@.len() == 0 ==> word is None && final(self)@ == old(self)@,
            !queue_full && old(self)@.len() > 0 ==> word == Some(old(self)@[0]) && final(self)@
                == old(self)@.skip(1),
    {
        if queue_full || self.pending.len() == 0 {
            None
        } else {
            let word = self.pending.remove(0);
            assert(self.pending@ =~= old(self)@.skip(1));
            Some(word)
        }
    }
}

} // verus!
