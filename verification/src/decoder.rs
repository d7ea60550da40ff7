//! The key decoder: a state machine that turns the byte stream of the
//! keyboard into logical keys.
//!
//! The decoder never reads by itself. [`KeyDecoder::read_key`] decodes as far
//! as the bytes at hand allow and answers `None` where it needs the result of
//! one more read; the caller performs that read and hands the outcome to
//! [`KeyDecoder::feed`].

use crate::error::TermError;
use crate::keys::{escape_table, key_of_byte, match_escape, EscapeMatch, Key, ESC};
use vstd::prelude::*;

verus! {

/// The outcome of one read from the input stream.
#[derive(Clone, Copy, Debug, PartialEq, Eq, Structural)]
pub enum Input {
    /// The read brought this byte.
    Byte(u8),
    /// The read ended without a byte: no key arrived in time.
    Absent,
    /// The read ended without a byte because the stream has ended.
    Ended,
    /// The read failed.
    Failed,
}

impl Input {
    /// The outcome that the result of a read of one byte stands for.
    ///
    /// A negative count is a failed read and a count above zero brought
    /// `byte`. A count of zero brought nothing: the stream has ended where
    /// the terminal was found to have hung up, else no key arrived in time.
    pub open spec fn of_read(count: isize, byte: u8, hung_up: bool) -> Input {
        if count < 0 {
            Input::Failed
        } else if count > 0 {
            Input::Byte(byte)
        } else if hung_up {
            Input::Ended
        } else {
            Input::Absent
        }
    }

    /// Judges the result of a read of one byte: the count that the read
    /// returned, the byte it filled in, and whether the terminal was found
    /// to have hung up.
    pub fn from_read(count: isize, byte: u8, hung_up: bool) -> (input: Input)
        ensures
            input == Input::of_read(count, byte, hung_up),
    {
        if count < 0 {
            Input::Failed
        } else if count > 0 {
            Input::Byte(byte)
        } else if hung_up {
            Input::Ended
        } else {
            Input::Absent
        }
    }
}

/// How far the decoder is into an escape sequence.
///
/// After an escape byte the decoder gathers three slots, each holding the
/// byte that followed or `None` where a read brought nothing.
#[derive(Clone, Copy, Debug, PartialEq, Eq, Structural)]
pub enum Phase {
    /// No escape sequence is open.
    Ground,
    /// An escape byte was taken and no slot is filled yet.
    Opened,
    /// One slot is filled.
    One(Option<u8>),
    /// Two slots are filled.
    Two(Option<u8>, Option<u8>),
    /// All three slots are filled and the sequence awaits its lookup.
    Full(Option<u8>, Option<u8>, Option<u8>),
}

impl Phase {
    /// The number of slots that are filled.
    pub open spec fn slots(self) -> nat {
        match self {
            Phase::Ground | Phase::Opened => 0,
            Phase::One(_) => 1,
            Phase::Two(_, _) => 2,
            Phase::Full(_, _, _) => 3,
        }
    }

    /// True while an escape sequence is open and a slot is still empty.
    pub open spec fn gathering(self) -> bool {
        self is Opened || self is One || self is Two
    }

    /// This phase with `slot` in its next empty slot. A phase that has no
    /// empty slot stays as it is.
    pub open spec fn with_slot(self, slot: Option<u8>) -> Phase {
        match self {
            Phase::Opened => Phase::One(slot),
            Phase::One(first) => Phase::Two(first, slot),
            Phase::Two(first, second) => Phase::Full(first, second, slot),
            _ => self,
        }
    }

    /// How many steps the phase is away from the end of its sequence; part
    /// of the measure by which decoding terminates.
    pub open spec fn rank(self) -> nat {
        match self {
            Phase::Ground => 0,
            Phase::Full(_, _, _) => 1,
            Phase::Two(_, _) => 2,
            Phase::One(_) => 3,
            Phase::Opened => 4,
        }
    }

    /// Puts `slot` into the next empty slot.
    pub fn fill(self, slot: Option<u8>) -> (next: Phase)
        ensures
            next == self.with_slot(slot),
    {
        match self {
            Phase::Opened => Phase::One(slot),
            Phase::One(first) => Phase::Two(first, slot),
            Phase::Two(first, second) => Phase::Full(first, second, slot),
            other => other,
        }
    }
}

/// The byte of a slot as a sequence: one byte, or none.
pub open spec fn present(slot: Option<u8>) -> Seq<u8> {
    match slot {
        Some(byte) => seq![byte],
        None => Seq::empty(),
    }
}

/// The bytes of three slots in the order in which they arrived.
pub open spec fn arrived(first: Option<u8>, second: Option<u8>, third: Option<u8>) -> Seq<u8> {
    present(first) + present(second) + present(third)
}

/// The bytes of three slots as they lie on the pushback stack: the byte that
/// arrived first is on top, which is the end of the sequence.
pub open spec fn replayed(first: Option<u8>, second: Option<u8>, third: Option<u8>) -> Seq<u8> {
    present(third) + present(second) + present(first)
}

/// The decoder as a mathematical value.
pub struct DecoderState {
    /// The pushback stack: bytes that were read and not yet decoded. The
    /// last element is the top of the stack, the byte that is decoded next.
    pub pending: Seq<u8>,
    /// The escape sequence in progress.
    pub phase: Phase,
}

impl DecoderState {
    /// A decoder that has seen no input.
    pub open spec fn fresh() -> DecoderState {
        DecoderState { pending: Seq::empty(), phase: Phase::Ground }
    }

    /// The number of places that the decoder holds: the bytes on the
    /// pushback stack and the slots that are filled.
    pub open spec fn load(self) -> nat {
        self.pending.len() + self.phase.slots()
    }

    /// The measure by which decoding terminates. Every step that does not
    /// end the decoding of a key makes it smaller.
    pub open spec fn measure(self) -> nat {
        5 * self.load() + self.phase.rank()
    }

    /// The state after one more read result has arrived.
    ///
    /// A byte goes to the bottom of the pushback stack, behind every byte
    /// that is still pending. A read without a byte fills the next slot of
    /// an open escape sequence with `None` where no pending byte could fill
    /// it, and is ignored otherwise.
    pub open spec fn absorb(self, slot: Option<u8>) -> DecoderState {
        match slot {
            Some(byte) => DecoderState { pending: seq![byte] + self.pending, ..self },
            None => if self.pending.len() == 0 && self.phase.gathering() {
                DecoderState { phase: self.phase.with_slot(None), ..self }
            } else {
                self
            },
        }
    }

    /// The state after a failed read: an escape sequence in progress is
    /// given up and the pushback stack is kept.
    pub open spec fn abandon(self) -> DecoderState {
        DecoderState { phase: Phase::Ground, ..self }
    }

    /// Decodes the next key from the bytes at hand.
    ///
    /// The result is the state in which decoding stopped, and the key, or
    /// `None` where decoding stopped for want of input.
    ///
    /// Outside an escape sequence the top of the pushback stack is taken: an
    /// escape byte opens a sequence, any other byte is the key it stands
    /// for. An open sequence fills its slots from the pushback stack. Once
    /// the three slots are full they are looked up in the table. A match is
    /// the key, and its unused third byte goes back onto the stack. Without a
    /// match the escape byte is dropped, the bytes of the slots go back onto
    /// the stack, the one that arrived first on top, and decoding starts
    /// again.
    pub open spec fn advance(self) -> (DecoderState, Option<Key>)
        decreases self.measure(),
    {
        match self.phase {
            Phase::Ground => {
                if self.pending.len() == 0 {
                    (self, None)
                } else if self.pending.last() == ESC {
                    DecoderState {
                        pending: self.pending.drop_last(),
                        phase: Phase::Opened,
                    }.advance()
                } else {
                    (
                        DecoderState { pending: self.pending.drop_last(), phase: Phase::Ground },
                        Some(key_of_byte(self.pending.last())),
                    )
                }
            },
            Phase::Full(first, second, third) => {
                match escape_table(first, second, third) {
                    Some(EscapeMatch { key, spare }) => (
                        DecoderState {
                            pending: self.pending + present(spare),
                            phase: Phase::Ground,
                        },
                        Some(key),
                    ),
                    None => DecoderState {
                        pending: self.pending + replayed(first, second, third),
                        phase: Phase::Ground,
                    }.advance(),
                }
            },
            _ => {
                if self.pending.len() == 0 {
                    (self, None)
                } else {
                    DecoderState {
                        pending: self.pending.drop_last(),
                        phase: self.phase.with_slot(Some(self.pending.last())),
                    }.advance()
                }
            },
        }
    }

    /// The state and the answer after the outcome of one read was fed.
    ///
    /// A failed read is reported as a stream failure and abandons the
    /// sequence in progress. The end of the stream is a stream failure too
    /// where no sequence is open, and changes nothing then; inside a
    /// sequence it leaves a slot empty, as a read without a byte does. Any
    /// other outcome is absorbed, and decoding goes on from there.
    pub open spec fn fed(self, input: Input) -> (DecoderState, Result<Option<Key>, TermError>) {
        match input {
            Input::Ended => {
                if self.phase is Ground {
                    (self, Err(TermError::Stream))
                } else {
                    let (next, key) = self.absorb(None).advance();
                    (next, Ok(key))
                }
            },
            Input::Byte(byte) => {
                let (next, key) = self.absorb(Some(byte)).advance();
                (next, Ok(key))
            },
            Input::Absent => {
                let (next, key) = self.absorb(None).advance();
                (next, Ok(key))
            },
            Input::Failed => (self.abandon(), Err(TermError::Stream)),
        }
    }

    /// Decodes for as long as the bytes at hand give keys: the state at the
    /// end and the keys in order. These are the keys that `advance` yields
    /// when it is applied again and again until it asks for input.
    pub open spec fn drain(self) -> (DecoderState, Seq<Key>)
        decreases self.measure(),
    {
        let (next, key) = self.advance();
        match key {
            None => (next, Seq::empty()),
            Some(key) => {
                proof {
                    lemma_advance_stops(self);
                }
                let (last, keys) = next.drain();
                (last, seq![key] + keys)
            },
        }
    }
}

/// The keys of a run of bytes that are each decoded on their own.
pub open spec fn keys_of(bytes: Seq<u8>) -> Seq<Key> {
    bytes.map_values(|byte: u8| key_of_byte(byte))
}

/// How decoding stops. It stops with a key, and then no escape sequence is
/// open and the measure has become smaller. Or it stops for want of input,
/// and then the pushback stack is empty and any open sequence still has an
/// empty slot: the decoder asks for a read only when it has used up every
/// byte it was given. Either way it holds no more than before.
pub proof fn lemma_advance_stops(state: DecoderState)
    ensures
        state.advance().0.load() <= state.load(),
        state.advance().0.measure() <= state.measure(),
        state.advance().1 is Some ==> state.advance().0.measure() < state.measure(),
        state.advance().1 is Some ==> state.advance().0.phase is Ground,
        state.advance().1 is None ==> state.advance().0.pending.len() == 0,
        state.advance().1 is None ==> !(state.advance().0.phase is Full),
    decreases state.measure(),
{
    match state.phase {
        Phase::Ground => {
            if state.pending.len() > 0 && state.pending.last() == ESC {
                lemma_advance_stops(
                    DecoderState { pending: state.pending.drop_last(), phase: Phase::Opened },
                );
            }
        },
        Phase::Full(first, second, third) => {
            if escape_table(first, second, third) is None {
                lemma_advance_stops(
                    DecoderState {
                        pending: state.pending + replayed(first, second, third),
                        phase: Phase::Ground,
                    },
                );
            }
        },
        _ => {
            if state.pending.len() > 0 {
                lemma_advance_stops(
                    DecoderState {
                        pending: state.pending.drop_last(),
                        phase: state.phase.with_slot(Some(state.pending.last())),
                    },
                );
            }
        },
    }
}

/// The pushback stack stays small. A decoder that is given the outcome of a
/// read only when it has asked for one never holds more than three places,
/// bytes on the stack and filled slots together: decoding adds none, and a
/// read that was asked for finds at most two and adds at most one.
pub proof fn lemma_pushback_stays_small(state: DecoderState, slot: Option<u8>)
    ensures
        DecoderState::fresh().load() == 0,
        state.advance().0.load() <= state.load(),
        state.advance().1 is None ==> state.advance().0.absorb(slot).load() <= 3,
{
    lemma_advance_stops(state);
}

/// The key decoder: the pushback stack and the escape sequence in progress.
pub struct KeyDecoder {
    key_buffer: Vec<u8>,
    phase: Phase,
}

impl View for KeyDecoder {
    type V = DecoderState;

    closed spec fn view(&self) -> DecoderState {
        DecoderState { pending: self.key_buffer@, phase: self.phase }
    }
}

impl KeyDecoder {
    /// A decoder with an empty pushback stack and no sequence open.
    pub fn new() -> (decoder: KeyDecoder)
        ensures
            decoder@ == DecoderState::fresh(),
    {
        KeyDecoder { key_buffer: Vec::new(), phase: Phase::Ground }
    }

    /// The bytes on the pushback stack, the next one to be decoded last.
    pub fn pending(&self) -> (bytes: &Vec<u8>)
        ensures
            bytes@ == self@.pending,
    {
        &self.key_buffer
    }

    /// The escape sequence in progress.
    pub fn phase(&self) -> (phase: Phase)
        ensures
            phase == self@.phase,
    {
        self.phase
    }

    /// Decodes the next key from the bytes at hand, without reading.
    ///
    /// Returns `None` where a read is needed first: perform it and hand its
    /// outcome to [`KeyDecoder::feed`].
    pub fn read_key(&mut self) -> (key: Option<Key>)
        ensures
            (final(self)@, key) == old(self)@.advance(),
    {
        let ghost start = self@;
        loop
            invariant
                start == old(self)@,
                self@.advance() == start.advance(),
            decreases self@.measure(),
        {
            let ghost before = self@;
            match self.phase {
                Phase::Ground => {
                    match self.key_buffer.pop() {
                        None => {
                            return None;
                        },
                        Some(byte) => {
                            if byte == ESC {
                                self.phase = Phase::Opened;
                            } else {
                                return Some(Key::from_byte(byte));
                            }
                        },
                    }
                },
                Phase::Full(first, second, third) => {
                    self.phase = Phase::Ground;
                    match match_escape(first, second, third) {
                        Some(EscapeMatch { key, spare }) => {
                            self.push_back(spare);
                            return Some(key);
                        },
                        None => {
                            self.push_back(third);
                            self.push_back(second);
                            self.push_back(first);
                            assert(self@.pending =~= before.pending + replayed(
                                first,
                                second,
                                third,
                            ));
                        },
                    }
                },
                phase => {
                    match self.key_buffer.pop() {
                        None => {
                            return None;
                        },
                        Some(byte) => {
                            self.phase = phase.fill(Some(byte));
                        },
                    }
                },
            }
        }
    }

    /// Takes the outcome of one read and decodes on from there.
    ///
    /// Returns the key that the read completed, `None` where another read is
    /// needed, and the stream failure where the read had failed or the
    /// stream has ended with no sequence open.
    pub fn feed(&mut self, input: Input) -> (outcome: Result<Option<Key>, TermError>)
        ensures
            (final(self)@, outcome) == old(self)@.fed(input),
    {
        match input {
            Input::Ended => {
                match self.phase {
                    Phase::Ground => {
                        return Err(TermError::Stream);
                    },
                    phase => {
                        if self.key_buffer.len() == 0 {
                            self.phase = phase.fill(None);
                        }
                    },
                }
            },
            Input::Byte(byte) => {
                self.key_buffer.insert(0, byte);
                assert(self@.pending =~= seq![byte] + old(self)@.pending);
            },
            Input::Absent => {
                if self.key_buffer.len() == 0 {
                    self.phase = self.phase.fill(None);
                }
            },
            Input::Failed => {
                self.phase = Phase::Ground;
                return Err(TermError::Stream);
            },
        }
        Ok(self.read_key())
    }

    /// Puts the byte of `slot`, if it holds one, on top of the pushback stack.
    fn push_back(&mut self, slot: Option<u8>)
        ensures
            final(self)@ == (DecoderState {
                pending: old(self)@.pending + present(slot),
                ..old(self)@
            }),
    {
        if let Some(byte) = slot {
            self.key_buffer.push(byte);
        }
        assert(self@.pending =~= old(self)@.pending + present(slot));
    }
}

/// A byte other than the escape byte, fed to a decoder that has seen no
/// input, is at once the key it stands for, and the decoder is as before.
pub proof fn lemma_single_byte_decodes(byte: u8)
    requires
        byte != ESC,
    ensures
        DecoderState::fresh().fed(Input::Byte(byte)) == (
            DecoderState::fresh(),
            Ok::<Option<Key>, TermError>(Some(key_of_byte(byte))),
        ),
{
    let loaded = DecoderState::fresh().absorb(Some(byte));
    assert(loaded.pending.drop_last() =~= Seq::<u8>::empty());
}

/// A read that brings nothing while no sequence is open changes nothing and
/// yields no key: the caller reads again.
pub proof fn lemma_idle_read_changes_nothing()
    ensures
        DecoderState::fresh().fed(Input::Absent) == (
            DecoderState::fresh(),
            Ok::<Option<Key>, TermError>(None),
        ),
{
}

/// The end of the stream is a failure where a key is awaited and an empty
/// slot where a sequence is open. With no sequence open it is reported as a
/// stream failure and the decoder stays as it is; inside a sequence it does
/// what a read without a byte does. So an escape byte followed by the end of
/// the stream is the escape key, and the read after it fails.
pub proof fn lemma_end_of_stream(state: DecoderState)
    ensures
        state.phase is Ground ==> state.fed(Input::Ended) == (
            state,
            Err::<Option<Key>, TermError>(TermError::Stream),
        ),
        !(state.phase is Ground) ==> state.fed(Input::Ended) == state.fed(Input::Absent),
        after_escape(seq![None, None, None]) == (DecoderState::fresh(), Some(Key::Escape)),
        after_escape(seq![None, None, None]).0.fed(Input::Ended).1 == Err::<
            Option<Key>,
            TermError,
        >(TermError::Stream),
{
    lemma_table_sequence_decodes(None, None, None);
}

/// The state of a decoder that has seen no input, after the escape byte and
/// the given slots were fed to it one by one. Where fewer than three slots
/// are given, the decoder is still waiting.
pub open spec fn after_escape(slots: Seq<Option<u8>>) -> (DecoderState, Option<Key>)
    decreases slots.len(),
{
    if slots.len() == 0 {
        DecoderState::fresh().absorb(Some(ESC)).advance()
    } else {
        after_escape(slots.drop_last()).0.absorb(slots.last()).advance()
    }
}

/// While fewer than three slots have been fed after the escape byte, the
/// decoder holds them, has nothing on its pushback stack and yields no key.
pub proof fn lemma_escape_waits(slots: Seq<Option<u8>>)
    requires
        slots.len() < 3,
    ensures
        after_escape(slots).1 is None,
        after_escape(slots).0.pending == Seq::<u8>::empty(),
        slots.len() == 0 ==> after_escape(slots).0.phase == Phase::Opened,
        slots.len() == 1 ==> after_escape(slots).0.phase == Phase::One(slots[0]),
        slots.len() == 2 ==> after_escape(slots).0.phase == Phase::Two(slots[0], slots[1]),
    decreases slots.len(),
{
    reveal_with_fuel(DecoderState::advance, 3);
    if slots.len() > 0 {
        lemma_escape_waits(slots.drop_last());
    }
}

/// Every sequence of the table decodes to its key. Feeding the escape byte
/// and then the three slots of a table entry to a decoder that has seen no
/// input yields no key before the third slot and the entry's key with it.
/// Afterwards no sequence is open, and the pushback stack holds the unused
/// third byte of a two-byte sequence and nothing else.
pub proof fn lemma_table_sequence_decodes(
    first: Option<u8>,
    second: Option<u8>,
    third: Option<u8>,
)
    requires
        escape_table(first, second, third) is Some,
    ensures
        after_escape(seq![]).1 is None,
        after_escape(seq![first]).1 is None,
        after_escape(seq![first, second]).1 is None,
        after_escape(seq![first, second, third]) == (
            DecoderState {
                pending: present(escape_table(first, second, third).unwrap().spare),
                phase: Phase::Ground,
            },
            Some(escape_table(first, second, third).unwrap().key),
        ),
{
    lemma_escape_waits(seq![]);
    lemma_escape_waits(seq![first]);
    lemma_escape_waits(seq![first, second]);
    lemma_window_closes(first, second, third);
}

/// With the third slot the window is full: the decoder goes on from the
/// three slots and an empty pushback stack.
proof fn lemma_window_closes(first: Option<u8>, second: Option<u8>, third: Option<u8>)
    ensures
        after_escape(seq![first, second, third]) == (DecoderState {
            pending: Seq::empty(),
            phase: Phase::Full(first, second, third),
        }).advance(),
{
    reveal_with_fuel(DecoderState::advance, 3);
    let slots = seq![first, second, third];
    assert(slots.drop_last() =~= seq![first, second]);
    lemma_escape_waits(seq![first, second]);
}

/// Bytes on the pushback stack of which none is the escape byte are decoded
/// one by one, each on its own, the top of the stack first.
pub proof fn lemma_plain_bytes_drain(stack: Seq<u8>)
    requires
        forall|i: int| 0 <= i < stack.len() ==> stack[i] != ESC,
    ensures
        (DecoderState { pending: stack, phase: Phase::Ground }).drain() == (
            DecoderState::fresh(),
            keys_of(stack.reverse()),
        ),
    decreases stack.len(),
{
    let state = DecoderState { pending: stack, phase: Phase::Ground };
    if stack.len() == 0 {
        assert(stack =~= Seq::<u8>::empty());
    } else {
        let rest = stack.drop_last();
        lemma_plain_bytes_drain(rest);
        assert(state.advance() == (
            DecoderState { pending: rest, phase: Phase::Ground },
            Some(key_of_byte(stack.last())),
        ));
        assert(keys_of(stack.reverse()) =~= seq![key_of_byte(stack.last())] + keys_of(
            rest.reverse(),
        ));
    }
}

/// An escape byte followed by slots that match no table entry is dropped,
/// and the bytes of the slots are decoded as if they had been typed on
/// their own: in the order in which they arrived, none twice and none lost.
/// Afterwards the decoder is as if it had seen no input. This holds where
/// none of the bytes is itself an escape byte, which would open a sequence
/// of its own.
pub proof fn lemma_unmatched_sequence_replays(
    first: Option<u8>,
    second: Option<u8>,
    third: Option<u8>,
)
    requires
        escape_table(first, second, third) is None,
        first != Some(ESC),
        second != Some(ESC),
        third != Some(ESC),
    ensures
        after_escape(seq![]).1 is None,
        after_escape(seq![first]).1 is None,
        after_escape(seq![first, second]).1 is None,
        after_escape(seq![first, second, third]).1 == Some(
            key_of_byte(arrived(first, second, third)[0]),
        ),
        ({
            let (next, key) = after_escape(seq![first, second, third]);
            let (last, keys) = next.drain();
            last == DecoderState::fresh() && seq![key->0] + keys == keys_of(
                arrived(first, second, third),
            )
        }),
{
    lemma_escape_waits(seq![]);
    lemma_escape_waits(seq![first]);
    lemma_escape_waits(seq![first, second]);
    lemma_window_closes(first, second, third);
    let stack = replayed(first, second, third);
    let state = DecoderState { pending: stack, phase: Phase::Ground };
    assert(stack.reverse() =~= arrived(first, second, third));
    lemma_plain_bytes_drain(stack);
    assert(state.advance().1 == Some(key_of_byte(stack.last())));
}

} // verus!
