//! The terminal as a whole: its attributes, its size, the output that waits
//! to be written, and the key decoder.
//!
//! A `Terminal` holds what is known of the terminal and decides what has to
//! be done to it. The caller owns the file descriptors: it reads and applies
//! attributes, writes what [`Terminal::flush`] hands out, performs the reads
//! that [`Terminal::read_key`] asks for, and carries out
//! [`Terminal::teardown`] when it lets the terminal go.

use crate::attributes::{ModeBits, TerminalAttributes};
use crate::decoder::{DecoderState, Input, KeyDecoder};
use crate::error::TermError;
use crate::keys::Key;
use vstd::prelude::*;
use vstd::string::StringExecFns;

verus! {

/// The bytes that clear the screen: `ESC [ 2 J`.
pub open spec fn clear_screen_bytes() -> Seq<u8> {
    seq![0x1b, 0x5b, 0x32, 0x4a]
}

/// The bytes that move the cursor to the top left corner: `ESC [ H`.
pub open spec fn cursor_home_bytes() -> Seq<u8> {
    seq![0x1b, 0x5b, 0x48]
}

/// Judges the count that a write returned against the number of bytes that
/// were to be written: the write succeeded where it took them all. A failed
/// write, which returns a negative count, and a short one are stream
/// failures.
pub fn check_write(length: usize, count: isize) -> (outcome: Result<(), TermError>)
    ensures
        count == length ==> outcome == Ok::<(), TermError>(()),
        count != length ==> outcome == Err::<(), TermError>(TermError::Stream),
{
    if count >= 0 && count as usize == length {
        Ok(())
    } else {
        Err(TermError::Stream)
    }
}

/// What has to be done when the terminal is let go, in this order: write
/// `clear_screen`, write `cursor_home`, apply `attributes`.
pub struct Teardown {
    /// The bytes that clear the screen.
    pub clear_screen: Vec<u8>,
    /// The bytes that move the cursor home.
    pub cursor_home: Vec<u8>,
    /// The attributes that the terminal had before it was taken.
    pub attributes: TerminalAttributes,
}

/// The terminal as a mathematical value.
pub struct TerminalState {
    /// The attributes captured when the terminal was taken. They never
    /// change and are the ones that teardown restores.
    pub original: TerminalAttributes,
    /// The attributes that the terminal is meant to have now.
    pub current: TerminalAttributes,
    /// The number of rows of the window.
    pub rows: usize,
    /// The number of columns of the window.
    pub cols: usize,
    /// The output that waits to be written.
    pub output: Seq<char>,
    /// The key decoder.
    pub decoder: DecoderState,
}

impl TerminalState {
    /// The terminal as it is taken: both attribute sets are the captured
    /// ones, nothing waits to be written and no input has been seen.
    pub open spec fn taken(
        rows: usize,
        cols: usize,
        attributes: TerminalAttributes,
    ) -> TerminalState {
        TerminalState {
            original: attributes,
            current: attributes,
            rows,
            cols,
            output: Seq::empty(),
            decoder: DecoderState::fresh(),
        }
    }

    /// This terminal with its current attributes changed to raw mode.
    pub open spec fn made_raw(self, bits: ModeBits) -> TerminalState {
        TerminalState { current: self.current.raw(bits), ..self }
    }

    /// The attributes that teardown restores.
    pub open spec fn restored(self) -> TerminalAttributes {
        self.original
    }
}

/// A terminal taken for full-screen use.
pub struct Terminal {
    orig: TerminalAttributes,
    curr: TerminalAttributes,
    num_rows: usize,
    num_cols: usize,
    term_buffer: String,
    keys: KeyDecoder,
}

impl View for Terminal {
    type V = TerminalState;

    closed spec fn view(&self) -> TerminalState {
        TerminalState {
            original: self.orig,
            current: self.curr,
            rows: self.num_rows,
            cols: self.num_cols,
            output: self.term_buffer@,
            decoder: self.keys@,
        }
    }
}

impl Terminal {
    /// Takes a terminal whose window size and attributes were just read.
    pub fn new(rows: usize, cols: usize, attributes: TerminalAttributes) -> (terminal: Terminal)
        ensures
            terminal@ == TerminalState::taken(rows, cols, attributes),
    {
        Terminal {
            orig: attributes,
            curr: attributes,
            num_rows: rows,
            num_cols: cols,
            term_buffer: String::new(),
            keys: KeyDecoder::new(),
        }
    }

    /// Changes the current attributes to raw mode with the given mode bits
    /// and returns them for the caller to apply.
    pub fn make_raw_with(&mut self, bits: &ModeBits) -> (attributes: TerminalAttributes)
        ensures
            final(self)@ == old(self)@.made_raw(*bits),
            attributes == final(self)@.current,
    {
        self.curr.enable_raw_mode_with(bits);
        self.curr
    }

    /// Changes the current attributes to raw mode with the mode bits that
    /// `libc` defines and returns them for the caller to apply.
    pub fn make_raw(&mut self) -> (attributes: TerminalAttributes)
        ensures
            final(self)@ == old(self)@.made_raw(ModeBits::platform()),
            attributes == final(self)@.current,
    {
        let bits = ModeBits::native();
        self.make_raw_with(&bits)
    }

    /// Takes a terminal and changes its current attributes to raw mode. The
    /// caller applies [`Terminal::current`].
    pub fn new_raw(rows: usize, cols: usize, attributes: TerminalAttributes) -> (terminal: Terminal)
        ensures
            terminal@ == TerminalState::taken(rows, cols, attributes).made_raw(
                ModeBits::platform(),
            ),
    {
        let mut terminal = Terminal::new(rows, cols, attributes);
        terminal.make_raw();
        terminal
    }

    /// The number of rows of the window.
    pub fn rows(&self) -> (rows: usize)
        ensures
            rows == self@.rows,
    {
        self.num_rows
    }

    /// The number of columns of the window.
    pub fn cols(&self) -> (cols: usize)
        ensures
            cols == self@.cols,
    {
        self.num_cols
    }

    /// The attributes captured when the terminal was taken.
    pub fn original(&self) -> (attributes: TerminalAttributes)
        ensures
            attributes == self@.original,
    {
        self.orig
    }

    /// The attributes that the terminal is meant to have now.
    pub fn current(&self) -> (attributes: TerminalAttributes)
        ensures
            attributes == self@.current,
    {
        self.curr
    }

    /// The key decoder.
    pub fn decoder(&self) -> (decoder: &KeyDecoder)
        ensures
            decoder@ == self@.decoder,
    {
        &self.keys
    }

    /// Adds `content` to the end of the output that waits to be written.
    pub fn append(&mut self, content: &str)
        ensures
            final(self)@ == (TerminalState {
                output: old(self)@.output + content@,
                ..old(self)@
            }),
    {
        self.term_buffer.append(content);
    }

    /// Hands out the output that waits to be written and leaves none
    /// waiting. The caller writes it and hands the count that the write
    /// returned to [`check_write`].
    pub fn flush(&mut self) -> (output: String)
        ensures
            output@ == old(self)@.output,
            final(self)@ == (TerminalState { output: Seq::empty(), ..old(self)@ }),
    {
        let mut output = String::new();
        std::mem::swap(&mut output, &mut self.term_buffer);
        output
    }

    /// Decodes the next key from the bytes at hand, without reading.
    ///
    /// Returns `None` where a read is needed first: perform it and hand its
    /// outcome to [`Terminal::feed`].
    pub fn read_key(&mut self) -> (key: Option<Key>)
        ensures
            final(self)@ == (TerminalState {
                decoder: old(self)@.decoder.advance().0,
                ..old(self)@
            }),
            key == old(self)@.decoder.advance().1,
    {
        self.keys.read_key()
    }

    /// Takes the outcome of one read and decodes on from there.
    ///
    /// Returns the key that the read completed, `None` where another read is
    /// needed, and the stream failure where the read had failed.
    pub fn feed(&mut self, input: Input) -> (outcome: Result<Option<Key>, TermError>)
        ensures
            final(self)@ == (TerminalState {
                decoder: old(self)@.decoder.fed(input).0,
                ..old(self)@
            }),
            outcome == old(self)@.decoder.fed(input).1,
    {
        self.keys.feed(input)
    }

    /// What has to be done when the terminal is let go: clear the screen,
    /// move the cursor home, and apply the attributes that were captured
    /// when the terminal was taken.
    pub fn teardown(&self) -> (steps: Teardown)
        ensures
            steps.clear_screen@ == clear_screen_bytes(),
            steps.cursor_home@ == cursor_home_bytes(),
            steps.attributes == self@.restored(),
    {
        Teardown {
            clear_screen: vec![0x1b, 0x5b, 0x32, 0x4a],
            cursor_home: vec![0x1b, 0x5b, 0x48],
            attributes: self.orig,
        }
    }
}

/// Entering raw mode leaves the captured attributes alone. A terminal that
/// is taken with some attributes restores exactly these when it is let go,
/// and in whatever state a terminal is, entering raw mode with whatever mode
/// bits does not change what it restores.
pub proof fn lemma_raw_mode_round_trip(
    rows: usize,
    cols: usize,
    attributes: TerminalAttributes,
    state: TerminalState,
    bits: ModeBits,
)
    ensures
        TerminalState::taken(rows, cols, attributes).restored() == attributes,
        TerminalState::taken(rows, cols, attributes).made_raw(bits).restored() == attributes,
        state.made_raw(bits).restored() == state.restored(),
{
}

} // verus!
