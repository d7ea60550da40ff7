//! Finding the size of the terminal window.
//!
//! The size is asked of the operating system first. Where that gives no
//! usable answer the cursor is sent towards the bottom right corner and the
//! terminal is asked where it stopped. [`GeometryResolver`] holds the order
//! of these steps: it names the next action, the caller performs it and
//! reports what happened.

use crate::error::TermError;
use vstd::prelude::*;

verus! {

/// The byte that ends a cursor position report, `R`.
pub const TERMINATOR: u8 = 0x52;

/// The byte that separates the two fields of a report, `;`.
pub const SEPARATOR: u8 = 0x3b;

/// The plus sign, which may stand before the digits of a number.
pub const PLUS: u8 = 0x2b;

/// The number of bytes that send the cursor to the corner.
pub const CORNER_LENGTH: isize = 12;

/// The number of bytes that request the cursor position.
pub const REQUEST_LENGTH: isize = 4;

/// The bytes that move the cursor 999 columns right and 999 rows down, which
/// leaves it in the bottom right corner: `ESC [ 9 9 9 C ESC [ 9 9 9 B`.
pub open spec fn corner_bytes() -> Seq<u8> {
    seq![0x1b, 0x5b, 0x39, 0x39, 0x39, 0x43, 0x1b, 0x5b, 0x39, 0x39, 0x39, 0x42]
}

/// The bytes that ask the terminal to report the cursor position:
/// `ESC [ 6 n`.
pub open spec fn request_bytes() -> Seq<u8> {
    seq![0x1b, 0x5b, 0x36, 0x6e]
}

/// True for the bytes `0` to `9`.
pub open spec fn is_digit(byte: u8) -> bool {
    0x30 <= byte <= 0x39
}

/// The number that a digit stands for; zero for any other byte.
pub open spec fn digit_value(byte: u8) -> nat {
    if is_digit(byte) {
        (byte - 0x30) as nat
    } else {
        0
    }
}

/// The number that a run of digits stands for in base ten.
pub open spec fn digits_value(digits: Seq<u8>) -> nat
    decreases digits.len(),
{
    if digits.len() == 0 {
        0
    } else {
        digits_value(digits.drop_last()) * 10 + digit_value(digits.last())
    }
}

/// True where every byte is a digit.
pub open spec fn all_digits(bytes: Seq<u8>) -> bool {
    forall|i: int| 0 <= i < bytes.len() ==> is_digit(#[trigger] bytes[i])
}

/// The number that a field of a report holds: an optional plus sign and
/// then at least one digit, with a value that fits the machine word.
/// Anything else is no number.
pub open spec fn number(field: Seq<u8>) -> Option<usize> {
    let digits = if field.len() > 0 && field[0] == PLUS {
        field.skip(1)
    } else {
        field
    };
    if digits.len() > 0 && all_digits(digits) && digits_value(digits) <= usize::MAX {
        Some(digits_value(digits) as usize)
    } else {
        None
    }
}

/// True where `cut` is the place of the first separator in `body`.
pub open spec fn is_first_separator(body: Seq<u8>, cut: int) -> bool {
    &&& 0 <= cut < body.len()
    &&& body[cut] == SEPARATOR
    &&& forall|j: int| 0 <= j < cut ==> body[j] != SEPARATOR
}

/// The rows and columns that a cursor position report holds.
///
/// `reply` is the report without its terminator: two framing bytes, which
/// are skipped unread, the rows, a separator, the columns. Both fields must
/// be numbers and there must be exactly two: a reply that is too short, has
/// no separator, or has a field that is no number holds nothing.
pub open spec fn cursor_report(reply: Seq<u8>) -> Option<(usize, usize)> {
    let body = reply.skip(2);
    if reply.len() < 2 || !body.contains(SEPARATOR) {
        None
    } else {
        let cut = choose|cut: int| is_first_separator(body, cut);
        match (number(body.take(cut)), number(body.skip(cut + 1))) {
            (Some(rows), Some(cols)) => Some((rows, cols)),
            _ => None,
        }
    }
}

/// The value of a run of digits is at least the value of the run without
/// its last digit.
proof fn lemma_digits_value_grows(digits: Seq<u8>, shorter: int)
    requires
        0 <= shorter <= digits.len(),
    ensures
        digits_value(digits.take(shorter)) <= digits_value(digits),
    decreases digits.len() - shorter,
{
    if shorter == digits.len() {
        assert(digits.take(shorter) =~= digits);
    } else {
        lemma_digits_value_grows(digits.drop_last(), shorter);
        assert(digits.drop_last().take(shorter) =~= digits.take(shorter));
    }
}

/// Reads the number in `bytes[from..to]`.
fn parse_number(bytes: &[u8], from: usize, to: usize) -> (value: Option<usize>)
    requires
        from <= to <= bytes.len(),
    ensures
        value == number(bytes@.subrange(from as int, to as int)),
{
    let ghost field = bytes@.subrange(from as int, to as int);
    let mut at: usize = from;
    if at < to && bytes[at] == PLUS {
        at += 1;
    }
    let start: usize = at;
    let ghost digits = bytes@.subrange(start as int, to as int);
    if at == to {
        return None;
    }
    let mut value: usize = 0;
    while at < to
        invariant
            start <= at <= to <= bytes.len(),
            digits == bytes@.subrange(start as int, to as int),
            field == bytes@.subrange(from as int, to as int),
            digits == if field.len() > 0 && field[0] == PLUS {
                field.skip(1)
            } else {
                field
            },
            all_digits(digits.take(at - start)),
            value == digits_value(digits.take(at - start)),
        decreases to - at,
    {
        let byte = bytes[at];
        if byte < 0x30 || byte > 0x39 {
            assert(!is_digit(digits[at - start]));
            return None;
        }
        let digit: usize = (byte - 0x30) as usize;
        let ghost longer = digits.take(at - start + 1);
        proof {
            assert(longer.drop_last() =~= digits.take(at - start));
            assert(longer.last() == byte);
            lemma_digits_value_grows(digits, at - start + 1);
        }
        let shifted = match value.checked_mul(10) {
            Some(shifted) => shifted,
            None => {
                return None;
            },
        };
        value = match shifted.checked_add(digit) {
            Some(sum) => sum,
            None => {
                return None;
            },
        };
        at += 1;
        proof {
            assert forall|i: int| 0 <= i < longer.len() implies is_digit(#[trigger] longer[i]) by {
                if i < longer.len() - 1 {
                    assert(longer[i] == digits.take(at - start - 1)[i]);
                }
            }
        }
    }
    proof {
        assert(digits.take(at - start) =~= digits);
    }
    Some(value)
}

/// Reads the rows and columns out of a cursor position report. `reply` is
/// the report as the terminal sent it, without the terminator.
pub fn parse_cursor_report(reply: &[u8]) -> (outcome: Result<(usize, usize), TermError>)
    ensures
        outcome == match cursor_report(reply@) {
            Some(size) => Ok::<(usize, usize), TermError>(size),
            None => Err::<(usize, usize), TermError>(TermError::WindowSize),
        },
{
    let len: usize = reply.len();
    if len < 2 {
        return Err(TermError::WindowSize);
    }
    let ghost body = reply@.skip(2);
    let mut at: usize = 2;
    while at < len && reply[at] != SEPARATOR
        invariant
            2 <= at <= len == reply.len(),
            body == reply@.skip(2),
            forall|j: int| 0 <= j < at - 2 ==> body[j] != SEPARATOR,
        decreases len - at,
    {
        at += 1;
    }
    if at == len {
        return Err(TermError::WindowSize);
    }
    proof {
        let here = at - 2;
        assert(is_first_separator(body, here));
        assert(body.take(here) =~= reply@.subrange(2, at as int));
        assert(body.skip(here + 1) =~= reply@.subrange(at + 1, len as int));
    }
    let rows = parse_number(reply, 2, at);
    let cols = parse_number(reply, at + 1, len);
    match (rows, cols) {
        (Some(rows), Some(cols)) => Ok((rows, cols)),
        _ => Err(TermError::WindowSize),
    }
}

/// Where the search for the window size stands, which is also what the
/// caller has to do next.
#[derive(Clone, Copy, Debug, PartialEq, Eq, Structural)]
pub enum Stage {
    /// Ask the operating system for the window size and report
    /// [`ProbeEvent::Size`] or [`ProbeEvent::NoSize`].
    Query,
    /// Write the bytes that send the cursor to the corner and report
    /// [`ProbeEvent::Written`].
    Corner,
    /// Write the bytes that request the cursor position and report
    /// [`ProbeEvent::Written`].
    Request,
    /// Read one byte of the terminal's reply and report
    /// [`ProbeEvent::Byte`], [`ProbeEvent::EndOfInput`] or
    /// [`ProbeEvent::ReadFailed`].
    Reply,
    /// The size is known. Nothing is left to do.
    Resolved { rows: usize, cols: usize },
    /// The size could not be found. Nothing is left to do.
    Failed(TermError),
}

/// What happened when the caller performed the action of a stage.
#[derive(Clone, Copy, Debug, PartialEq, Eq, Structural)]
pub enum ProbeEvent {
    /// The operating system gave this window size.
    Size { rows: usize, cols: usize },
    /// The operating system could not give the window size.
    NoSize,
    /// The write returned this count of bytes, or a negative number where
    /// it failed.
    Written(isize),
    /// The read brought this byte.
    Byte(u8),
    /// The input ended.
    EndOfInput,
    /// The read failed.
    ReadFailed,
}

impl ProbeEvent {
    /// The event that the answer of the operating system to the size query
    /// stands for: no size where the status is -1, else the size it gave.
    pub open spec fn of_query(status: i32, rows: u16, cols: u16) -> ProbeEvent {
        if status == -1 {
            ProbeEvent::NoSize
        } else {
            ProbeEvent::Size { rows: rows as usize, cols: cols as usize }
        }
    }

    /// Judges the answer of the operating system to the size query: the
    /// status that the call returned and the size that it filled in.
    pub fn from_query(status: i32, rows: u16, cols: u16) -> (event: ProbeEvent)
        ensures
            event == ProbeEvent::of_query(status, rows, cols),
    {
        if status == -1 {
            ProbeEvent::NoSize
        } else {
            ProbeEvent::Size { rows: rows as usize, cols: cols as usize }
        }
    }
}

/// The resolver as a mathematical value.
pub struct ResolverState {
    /// The stage reached.
    pub stage: Stage,
    /// The bytes of the terminal's reply read so far.
    pub reply: Seq<u8>,
}

impl ResolverState {
    /// The resolver before anything was done.
    pub open spec fn start() -> ResolverState {
        ResolverState { stage: Stage::Query, reply: Seq::empty() }
    }

    /// This state at another stage.
    pub open spec fn at(self, stage: Stage) -> ResolverState {
        ResolverState { stage, ..self }
    }

    /// The bytes that the caller has to write at this stage; none at a
    /// stage that writes nothing.
    pub open spec fn output(self) -> Seq<u8> {
        match self.stage {
            Stage::Corner => corner_bytes(),
            Stage::Request => request_bytes(),
            _ => Seq::empty(),
        }
    }

    /// The state after each of `bytes` was reported as a byte read, in
    /// order.
    pub open spec fn read(self, bytes: Seq<u8>) -> ResolverState
        decreases bytes.len(),
    {
        if bytes.len() == 0 {
            self
        } else {
            self.read(bytes.drop_last()).step(ProbeEvent::Byte(bytes.last()))
        }
    }

    /// The state after `event`.
    ///
    /// A size from the operating system with a column count other than zero
    /// is the answer. Without one the cursor is sent to the corner, which
    /// must be written in full, the position is requested, which must be
    /// written in full, and the reply is read up to its terminator and then
    /// parsed. Input that ends before the terminator, a reply that does not
    /// parse, a short write, and an event that does not answer the action of
    /// the stage all fail with the window-size error; a failed read fails
    /// with the stream error. Once the size is known or the search has
    /// failed, nothing changes any more.
    pub open spec fn step(self, event: ProbeEvent) -> ResolverState {
        match (self.stage, event) {
            (Stage::Resolved { .. }, _) | (Stage::Failed(_), _) => self,
            (Stage::Query, ProbeEvent::Size { rows, cols }) => if cols != 0 {
                self.at(Stage::Resolved { rows, cols })
            } else {
                self.at(Stage::Corner)
            },
            (Stage::Query, ProbeEvent::NoSize) => self.at(Stage::Corner),
            (Stage::Corner, ProbeEvent::Written(count)) => if count == CORNER_LENGTH {
                self.at(Stage::Request)
            } else {
                self.at(Stage::Failed(TermError::WindowSize))
            },
            (Stage::Request, ProbeEvent::Written(count)) => if count == REQUEST_LENGTH {
                self.at(Stage::Reply)
            } else {
                self.at(Stage::Failed(TermError::WindowSize))
            },
            (Stage::Reply, ProbeEvent::Byte(byte)) => if byte != TERMINATOR {
                ResolverState { reply: self.reply.push(byte), ..self }
            } else {
                match cursor_report(self.reply) {
                    Some((rows, cols)) => self.at(Stage::Resolved { rows, cols }),
                    None => self.at(Stage::Failed(TermError::WindowSize)),
                }
            },
            (Stage::Reply, ProbeEvent::ReadFailed) => self.at(Stage::Failed(TermError::Stream)),
            _ => self.at(Stage::Failed(TermError::WindowSize)),
        }
    }
}

/// The steps by which the window size is found.
pub struct GeometryResolver {
    stage: Stage,
    reply: Vec<u8>,
}

impl View for GeometryResolver {
    type V = ResolverState;

    closed spec fn view(&self) -> ResolverState {
        ResolverState { stage: self.stage, reply: self.reply@ }
    }
}

impl GeometryResolver {
    /// A resolver that has done nothing yet.
    pub fn new() -> (resolver: GeometryResolver)
        ensures
            resolver@ == ResolverState::start(),
    {
        GeometryResolver { stage: Stage::Query, reply: Vec::new() }
    }

    /// The stage reached: what the caller has to do next.
    pub fn stage(&self) -> (stage: Stage)
        ensures
            stage == self@.stage,
    {
        self.stage
    }

    /// The bytes that the caller has to write at this stage.
    pub fn output(&self) -> (bytes: Vec<u8>)
        ensures
            bytes@ == self@.output(),
    {
        match self.stage {
            Stage::Corner => {
                vec![0x1b, 0x5b, 0x39, 0x39, 0x39, 0x43, 0x1b, 0x5b, 0x39, 0x39, 0x39, 0x42]
            },
            Stage::Request => vec![0x1b, 0x5b, 0x36, 0x6e],
            _ => Vec::new(),
        }
    }

    /// Takes what happened when the caller performed the action of the
    /// stage, and moves to the next stage.
    pub fn step(&mut self, event: ProbeEvent)
        ensures
            final(self)@ == old(self)@.step(event),
    {
        let next = match self.stage {
            Stage::Resolved { rows, cols } => Stage::Resolved { rows, cols },
            Stage::Failed(error) => Stage::Failed(error),
            Stage::Query => match event {
                ProbeEvent::Size { rows, cols } => {
                    if cols != 0 {
                        Stage::Resolved { rows, cols }
                    } else {
                        Stage::Corner
                    }
                },
                ProbeEvent::NoSize => Stage::Corner,
                _ => Stage::Failed(TermError::WindowSize),
            },
            Stage::Corner => match event {
                ProbeEvent::Written(count) => {
                    if count == CORNER_LENGTH {
                        Stage::Request
                    } else {
                        Stage::Failed(TermError::WindowSize)
                    }
                },
                _ => Stage::Failed(TermError::WindowSize),
            },
            Stage::Request => match event {
                ProbeEvent::Written(count) => {
                    if count == REQUEST_LENGTH {
                        Stage::Reply
                    } else {
                        Stage::Failed(TermError::WindowSize)
                    }
                },
                _ => Stage::Failed(TermError::WindowSize),
            },
            Stage::Reply => match event {
                ProbeEvent::Byte(byte) => {
                    if byte != TERMINATOR {
                        self.reply.push(byte);
                        Stage::Reply
                    } else {
                        match parse_cursor_report(self.reply.as_slice()) {
                            Ok((rows, cols)) => Stage::Resolved { rows, cols },
                            Err(error) => Stage::Failed(error),
                        }
                    }
                },
                ProbeEvent::ReadFailed => Stage::Failed(TermError::Stream),
                _ => Stage::Failed(TermError::WindowSize),
            },
        };
        self.stage = next;
    }
}

/// The digits of a number in base ten, without leading zeros.
pub open spec fn decimal(value: nat) -> Seq<u8>
    decreases value,
{
    if value < 10 {
        seq![(0x30 + value) as u8]
    } else {
        decimal(value / 10).push((0x30 + value % 10) as u8)
    }
}

/// A cursor position report as a terminal sends it, without the
/// terminator: `ESC [` rows `;` cols.
pub open spec fn report_bytes(rows: usize, cols: usize) -> Seq<u8> {
    seq![0x1bu8, 0x5bu8] + decimal(rows as nat) + seq![SEPARATOR] + decimal(cols as nat)
}

/// The digits of a number are digits, and they stand for the number.
pub proof fn lemma_decimal_reads_back(value: nat)
    ensures
        decimal(value).len() > 0,
        all_digits(decimal(value)),
        digits_value(decimal(value)) == value,
    decreases value,
{
    let digits = decimal(value);
    if value < 10 {
        assert(digits.drop_last() =~= Seq::<u8>::empty());
        assert(digits_value(digits.drop_last()) == 0);
    } else {
        lemma_decimal_reads_back(value / 10);
        assert(digits.drop_last() =~= decimal(value / 10));
    }
}

/// The lengths against which the counts of written bytes are held are the
/// lengths of the two sequences.
pub proof fn lemma_sequence_lengths()
    ensures
        corner_bytes().len() == CORNER_LENGTH,
        request_bytes().len() == REQUEST_LENGTH,
{
}

/// A direct answer with a column count other than zero is the window size,
/// and no probe is made.
pub proof fn lemma_direct_answer_resolves(rows: usize, cols: usize)
    requires
        cols != 0,
    ensures
        ResolverState::start().step(ProbeEvent::Size { rows, cols }).stage == (Stage::Resolved {
            rows,
            cols,
        }),
{
}

/// Bytes other than the terminator that arrive while the reply is read are
/// collected in order.
pub proof fn lemma_reply_collects(state: ResolverState, bytes: Seq<u8>)
    requires
        state.stage == Stage::Reply,
        forall|i: int| 0 <= i < bytes.len() ==> bytes[i] != TERMINATOR,
    ensures
        state.read(bytes) == (ResolverState { stage: Stage::Reply, reply: state.reply + bytes }),
    decreases bytes.len(),
{
    if bytes.len() == 0 {
        assert(state.reply + bytes =~= state.reply);
    } else {
        lemma_reply_collects(state, bytes.drop_last());
        assert((state.reply + bytes.drop_last()).push(bytes.last()) =~= state.reply + bytes);
    }
}

/// Every report that a terminal can send parses to the numbers it was
/// written from.
pub proof fn lemma_report_parses(rows: usize, cols: usize)
    ensures
        cursor_report(report_bytes(rows, cols)) == Some((rows, cols)),
{
    let first = decimal(rows as nat);
    let second = decimal(cols as nat);
    lemma_decimal_reads_back(rows as nat);
    lemma_decimal_reads_back(cols as nat);
    let reply = report_bytes(rows, cols);
    let body = reply.skip(2);
    let here = first.len() as int;
    assert(body =~= first + seq![SEPARATOR] + second);
    assert forall|j: int| 0 <= j < here implies body[j] != SEPARATOR by {
        assert(is_digit(first[j]));
    }
    assert(is_first_separator(body, here));
    assert(body.take(here) =~= first);
    assert(body.skip(here + 1) =~= second);
}

/// Where the operating system gives no usable size, the cursor probe finds
/// it. After a failed query or one that reports zero columns, with both
/// sequences written in full and the terminal's report read byte by byte up
/// to its terminator, the resolver holds the rows and columns of the report.
pub proof fn lemma_cursor_probe_resolves(direct: ProbeEvent, rows: usize, cols: usize)
    requires
        direct is NoSize || (direct is Size && direct->Size_cols == 0),
    ensures
        ResolverState::start().step(direct).stage == Stage::Corner,
        ResolverState::start().step(direct).step(ProbeEvent::Written(CORNER_LENGTH)).stage
            == Stage::Request,
        ResolverState::start().step(direct).step(ProbeEvent::Written(CORNER_LENGTH)).step(
            ProbeEvent::Written(REQUEST_LENGTH),
        ).read(report_bytes(rows, cols)).step(ProbeEvent::Byte(TERMINATOR)).stage
            == (Stage::Resolved { rows, cols }),
{
    let asked = ResolverState::start().step(direct).step(ProbeEvent::Written(CORNER_LENGTH)).step(
        ProbeEvent::Written(REQUEST_LENGTH),
    );
    let report = report_bytes(rows, cols);
    lemma_decimal_reads_back(rows as nat);
    lemma_decimal_reads_back(cols as nat);
    assert forall|i: int| 0 <= i < report.len() implies report[i] != TERMINATOR by {
        let first = decimal(rows as nat);
        let second = decimal(cols as nat);
        if 2 <= i < 2 + first.len() {
            assert(is_digit(first[i - 2]));
        } else if i > 2 + first.len() {
            assert(is_digit(second[i - 3 - first.len()]));
        }
    }
    lemma_reply_collects(asked, report);
    lemma_report_parses(rows, cols);
}

} // verus!
