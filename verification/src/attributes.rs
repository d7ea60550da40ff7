//! Terminal attributes and the change that puts a terminal into raw mode.
//!
//! The mode bits are taken from `libc`, with the values that it defines for
//! Linux on x86-64. The rules of raw mode are stated over any values of them.

use crate::error::TermError;
use vstd::prelude::*;

verus! {

/// The mode bits of the platform that raw mode deals with, each as a mask
/// over the flag word it belongs to.
#[derive(Clone, Copy, Debug, PartialEq, Eq, Structural)]
pub struct ModeBits {
    /// Local flag: typed characters are echoed.
    pub echo: u32,
    /// Local flag: input is delivered line by line.
    pub canonical: u32,
    /// Local flag: the interrupt and suspend keys raise signals.
    pub signals: u32,
    /// Local flag: extended input processing.
    pub extended: u32,
    /// Input flag: software flow control.
    pub flow_control: u32,
    /// Input flag: carriage return is translated to line feed.
    pub carriage_return: u32,
    /// Input flag: a break condition raises a signal.
    pub break_signal: u32,
    /// Input flag: parity checking.
    pub parity_check: u32,
    /// Input flag: the eighth bit of each byte is stripped.
    pub strip_eighth: u32,
    /// Output flag: output post-processing.
    pub post_process: u32,
    /// Control flags: the field that holds the character size.
    pub size_mask: u32,
    /// Control flags: the value of the size field for eight bits.
    pub eight_bit: u32,
}

/// The constant `libc::ECHO`, the local flag that echoes typed characters. The
/// contract states the value that `libc` defines for Linux on x86-64.
#[verifier::external_body]
fn echo_bit() -> (bit: u32)
    ensures
        bit == 0x8u32,
{
    libc::ECHO
}

/// The constant `libc::ICANON`, the local flag that delivers input line by
/// line. The contract states the value that `libc` defines for Linux on
/// x86-64.
#[verifier::external_body]
fn canonical_bit() -> (bit: u32)
    ensures
        bit == 0x2u32,
{
    libc::ICANON
}

/// The constant `libc::ISIG`, the local flag that lets the interrupt and
/// suspend keys raise signals. The contract states the value that `libc`
/// defines for Linux on x86-64.
#[verifier::external_body]
fn signals_bit() -> (bit: u32)
    ensures
        bit == 0x1u32,
{
    libc::ISIG
}

/// The constant `libc::IEXTEN`, the local flag of extended input processing.
/// The contract states the value that `libc` defines for Linux on x86-64.
#[verifier::external_body]
fn extended_bit() -> (bit: u32)
    ensures
        bit == 0x8000u32,
{
    libc::IEXTEN
}

/// The constant `libc::IXON`, the input flag of software flow control. The
/// contract states the value that `libc` defines for Linux on x86-64.
#[verifier::external_body]
fn flow_control_bit() -> (bit: u32)
    ensures
        bit == 0x400u32,
{
    libc::IXON
}

/// The constant `libc::ICRNL`, the input flag that translates carriage return
/// to line feed. The contract states the value that `libc` defines for Linux
/// on x86-64.
#[verifier::external_body]
fn carriage_return_bit() -> (bit: u32)
    ensures
        bit == 0x100u32,
{
    libc::ICRNL
}

/// The constant `libc::BRKINT`, the input flag that lets a break condition
/// raise a signal. The contract states the value that `libc` defines for Linux
/// on x86-64.
#[verifier::external_body]
fn break_signal_bit() -> (bit: u32)
    ensures
        bit == 0x2u32,
{
    libc::BRKINT
}

/// The constant `libc::INPCK`, the input flag of parity checking. The contract
/// states the value that `libc` defines for Linux on x86-64.
#[verifier::external_body]
fn parity_check_bit() -> (bit: u32)
    ensures
        bit == 0x10u32,
{
    libc::INPCK
}

/// The constant `libc::ISTRIP`, the input flag that strips the eighth bit of
/// each byte. The contract states the value that `libc` defines for Linux on
/// x86-64.
#[verifier::external_body]
fn strip_eighth_bit() -> (bit: u32)
    ensures
        bit == 0x20u32,
{
    libc::ISTRIP
}

/// The constant `libc::OPOST`, the output flag of output post-processing. The
/// contract states the value that `libc` defines for Linux on x86-64.
#[verifier::external_body]
fn post_process_bit() -> (bit: u32)
    ensures
        bit == 0x1u32,
{
    libc::OPOST
}

/// The constant `libc::CSIZE`, the field of the control flags that holds the
/// character size. The contract states the value that `libc` defines for Linux
/// on x86-64.
#[verifier::external_body]
fn size_mask_bits() -> (bits: u32)
    ensures
        bits == 0x30u32,
{
    libc::CSIZE
}

/// The constant `libc::CS8`, the value of the size field for characters of
/// eight bits. The contract states the value that `libc` defines for Linux on
/// x86-64.
#[verifier::external_body]
fn eight_bit_size() -> (bits: u32)
    ensures
        bits == 0x30u32,
{
    libc::CS8
}

impl ModeBits {
    /// The local flags that raw mode clears.
    pub open spec fn local_mask(self) -> u32 {
        self.echo | self.canonical | self.signals | self.extended
    }

    /// The input flags that raw mode clears.
    pub open spec fn input_mask(self) -> u32 {
        self.flow_control | self.carriage_return | self.break_signal | self.parity_check
            | self.strip_eighth
    }

    /// The mode bits of Linux on x86-64.
    pub open spec fn platform() -> ModeBits {
        ModeBits {
            echo: 0x8,
            canonical: 0x2,
            signals: 0x1,
            extended: 0x8000,
            flow_control: 0x400,
            carriage_return: 0x100,
            break_signal: 0x2,
            parity_check: 0x10,
            strip_eighth: 0x20,
            post_process: 0x1,
            size_mask: 0x30,
            eight_bit: 0x30,
        }
    }

    /// The mode bits as `libc` defines them.
    pub fn native() -> (bits: ModeBits)
        ensures
            bits == ModeBits::platform(),
    {
        ModeBits {
            echo: echo_bit(),
            canonical: canonical_bit(),
            signals: signals_bit(),
            extended: extended_bit(),
            flow_control: flow_control_bit(),
            carriage_return: carriage_return_bit(),
            break_signal: break_signal_bit(),
            parity_check: parity_check_bit(),
            strip_eighth: strip_eighth_bit(),
            post_process: post_process_bit(),
            size_mask: size_mask_bits(),
            eight_bit: eight_bit_size(),
        }
    }
}

/// What the library reads and changes of a terminal's attributes.
#[derive(Clone, Copy, Debug, PartialEq, Eq, Structural)]
pub struct TerminalAttributes {
    /// The input flag word.
    pub input_flags: u32,
    /// The output flag word.
    pub output_flags: u32,
    /// The control flag word.
    pub control_flags: u32,
    /// The local flag word.
    pub local_flags: u32,
    /// The control character that holds the least number of bytes a read
    /// waits for.
    pub min_bytes: u8,
    /// The control character that holds the time a read waits, in tenths of
    /// a second.
    pub timeout: u8,
}

impl TerminalAttributes {
    /// These attributes with input and output processing switched off.
    ///
    /// The local flags lose echo, canonical input, signal keys and extended
    /// processing. The input flags lose flow control, carriage-return
    /// translation, break signals, parity checking and stripping. The output
    /// flags lose post-processing. The size field of the control flags is
    /// set to eight bits. No other bit changes.
    pub open spec fn without_processing(self, bits: ModeBits) -> TerminalAttributes {
        TerminalAttributes {
            input_flags: self.input_flags & !bits.input_mask(),
            output_flags: self.output_flags & !bits.post_process,
            control_flags: (self.control_flags & !bits.size_mask) | bits.eight_bit,
            local_flags: self.local_flags & !bits.local_mask(),
            ..self
        }
    }

    /// These attributes in raw mode: processing is switched off, and a read
    /// waits for no byte and for at most a tenth of a second.
    pub open spec fn raw(self, bits: ModeBits) -> TerminalAttributes {
        TerminalAttributes { min_bytes: 0, timeout: 1, ..self.without_processing(bits) }
    }

    /// Switches input and output processing off, with the given mode bits.
    pub fn disable_processing(&mut self, bits: &ModeBits)
        ensures
            *final(self) == old(self).without_processing(*bits),
    {
        self.local_flags &= !(bits.echo | bits.canonical | bits.signals | bits.extended);
        self.input_flags &= !(bits.flow_control | bits.carriage_return | bits.break_signal
            | bits.parity_check | bits.strip_eighth);
        self.output_flags &= !bits.post_process;
        self.control_flags &= !bits.size_mask;
        self.control_flags |= bits.eight_bit;
    }

    /// Changes the attributes to raw mode, with the given mode bits.
    pub fn enable_raw_mode_with(&mut self, bits: &ModeBits)
        ensures
            *final(self) == old(self).raw(*bits),
    {
        self.disable_processing(bits);
        self.min_bytes = 0;
        self.timeout = 1;
    }

    /// Changes the attributes to raw mode, with the mode bits that `libc`
    /// defines.
    pub fn enable_raw_mode(&mut self)
        ensures
            *final(self) == old(self).raw(ModeBits::platform()),
    {
        let bits = ModeBits::native();
        self.enable_raw_mode_with(&bits);
    }
}

/// Judges the status that the operating system returned for reading or
/// writing the terminal attributes: zero is success, anything else fails.
pub fn check_attribute_status(status: i32) -> (outcome: Result<(), TermError>)
    ensures
        status == 0 ==> outcome == Ok::<(), TermError>(()),
        status != 0 ==> outcome == Err::<(), TermError>(TermError::Attributes),
{
    if status == 0 {
        Ok(())
    } else {
        Err(TermError::Attributes)
    }
}

/// Raw mode clears every bit that it names and keeps every other bit of the
/// local, input and output flag words. In the control flags it sets the bits
/// of the eight-bit size and keeps every bit outside the size field.
pub proof fn lemma_raw_clears_named_bits(attributes: TerminalAttributes, bits: ModeBits)
    ensures
        attributes.raw(bits).local_flags & bits.echo == 0,
        attributes.raw(bits).local_flags & bits.canonical == 0,
        attributes.raw(bits).local_flags & bits.signals == 0,
        attributes.raw(bits).local_flags & bits.extended == 0,
        attributes.raw(bits).local_flags | bits.local_mask() == attributes.local_flags
            | bits.local_mask(),
        attributes.raw(bits).input_flags & bits.flow_control == 0,
        attributes.raw(bits).input_flags & bits.carriage_return == 0,
        attributes.raw(bits).input_flags & bits.break_signal == 0,
        attributes.raw(bits).input_flags & bits.parity_check == 0,
        attributes.raw(bits).input_flags & bits.strip_eighth == 0,
        attributes.raw(bits).input_flags | bits.input_mask() == attributes.input_flags
            | bits.input_mask(),
        attributes.raw(bits).output_flags & bits.post_process == 0,
        attributes.raw(bits).output_flags | bits.post_process == attributes.output_flags
            | bits.post_process,
        attributes.raw(bits).control_flags & bits.eight_bit == bits.eight_bit,
        attributes.raw(bits).control_flags | bits.size_mask | bits.eight_bit
            == attributes.control_flags | bits.size_mask | bits.eight_bit,
        bits.eight_bit & bits.size_mask == bits.eight_bit ==> attributes.raw(bits).control_flags
            & bits.size_mask == bits.eight_bit,
{
    let l = attributes.local_flags;
    let (a, b, c, d) = (bits.echo, bits.canonical, bits.signals, bits.extended);
    assert((l & !(a | b | c | d)) & a == 0 && (l & !(a | b | c | d)) & b == 0 && (l & !(a | b | c
        | d)) & c == 0 && (l & !(a | b | c | d)) & d == 0 && (l & !(a | b | c | d)) | (a | b | c
        | d) == l | (a | b | c | d)) by (bit_vector);
    let i = attributes.input_flags;
    let (p, q, r, s, t) = (
        bits.flow_control,
        bits.carriage_return,
        bits.break_signal,
        bits.parity_check,
        bits.strip_eighth,
    );
    let m = p | q | r | s | t;
    assert(m == p | q | r | s | t ==> (i & !m) & p == 0 && (i & !m) & q == 0 && (i & !m) & r == 0
        && (i & !m) & s == 0 && (i & !m) & t == 0 && (i & !m) | m == i | m) by (bit_vector);
    let o = attributes.output_flags;
    let x = bits.post_process;
    assert((o & !x) & x == 0 && (o & !x) | x == o | x) by (bit_vector);
    let k = attributes.control_flags;
    let (z, e) = (bits.size_mask, bits.eight_bit);
    assert(((k & !z) | e) & e == e && ((k & !z) | e) | z | e == k | z | e && (e & z == e ==> ((k
        & !z) | e) & z == e)) by (bit_vector);
}

/// Raw mode with the mode bits of the platform: echo, canonical input, the
/// signal keys and extended processing are off, as are flow control,
/// carriage-return translation, break signals, parity checking, stripping
/// and output post-processing, and the character size is eight bits.
pub proof fn lemma_platform_raw_mode(attributes: TerminalAttributes)
    ensures
        attributes.raw(ModeBits::platform()).local_flags & ModeBits::platform().local_mask() == 0,
        attributes.raw(ModeBits::platform()).input_flags & ModeBits::platform().input_mask() == 0,
        attributes.raw(ModeBits::platform()).output_flags & ModeBits::platform().post_process
            == 0,
        attributes.raw(ModeBits::platform()).control_flags & ModeBits::platform().size_mask
            == ModeBits::platform().eight_bit,
        ModeBits::platform().local_mask() == 0x800b,
        ModeBits::platform().input_mask() == 0x532,
{
    let l = attributes.local_flags;
    let i = attributes.input_flags;
    let o = attributes.output_flags;
    let k = attributes.control_flags;
    assert((0x8u32 | 0x2u32 | 0x1u32 | 0x8000u32) == 0x800bu32) by (bit_vector);
    assert((0x400u32 | 0x100u32 | 0x2u32 | 0x10u32 | 0x20u32) == 0x532u32) by (bit_vector);
    assert((l & !0x800bu32) & 0x800bu32 == 0) by (bit_vector);
    assert((i & !0x532u32) & 0x532u32 == 0) by (bit_vector);
    assert((o & !0x1u32) & 0x1u32 == 0) by (bit_vector);
    assert(((k & !0x30u32) | 0x30u32) & 0x30u32 == 0x30u32) by (bit_vector);
}

/// Raw mode applied twice is raw mode applied once.
pub proof fn lemma_raw_is_idempotent(attributes: TerminalAttributes, bits: ModeBits)
    ensures
        attributes.raw(bits).raw(bits) == attributes.raw(bits),
{
    let l = attributes.local_flags;
    let m = bits.local_mask();
    assert((l & !m) & !m == l & !m) by (bit_vector);
    let i = attributes.input_flags;
    let n = bits.input_mask();
    assert((i & !n) & !n == i & !n) by (bit_vector);
    let o = attributes.output_flags;
    let x = bits.post_process;
    assert((o & !x) & !x == o & !x) by (bit_vector);
    let k = attributes.control_flags;
    let (z, e) = (bits.size_mask, bits.eight_bit);
    assert(((((k & !z) | e) & !z) | e) == (k & !z) | e) by (bit_vector);
}

} // verus!
