use rawterm::{Input, Key, KeyDecoder, Motion, Phase, TermError};

const ESC: u8 = 0x1b;

/// Feeds the escape byte and three slots to a new decoder and returns what
/// the last feed answered, having checked that the earlier ones asked for
/// more input.
fn after_escape(slots: [Option<u8>; 3]) -> (KeyDecoder, Option<Key>) {
    let mut decoder = KeyDecoder::new();
    assert_eq!(decoder.read_key(), None);
    assert_eq!(decoder.feed(Input::Byte(ESC)), Ok(None));
    let mut answer = None;
    for (place, slot) in slots.iter().enumerate() {
        let input = match slot {
            Some(byte) => Input::Byte(*byte),
            None => Input::Absent,
        };
        answer = decoder.feed(input).unwrap();
        if place < 2 {
            assert_eq!(answer, None);
        }
    }
    (decoder, answer)
}

fn expect_sequence(tail: &[u8], third: Option<u8>, key: Key, left: &[u8]) {
    let mut slots = [None, None, third];
    for (place, byte) in tail.iter().enumerate() {
        slots[place] = Some(*byte);
    }
    let (decoder, answer) = after_escape(slots);
    assert_eq!(answer, Some(key));
    assert_eq!(decoder.pending().as_slice(), left);
    assert_eq!(decoder.phase(), Phase::Ground);
}

#[test]
fn new_decoder_is_empty_and_waits() {
    let mut decoder = KeyDecoder::new();
    assert!(decoder.pending().is_empty());
    assert_eq!(decoder.phase(), Phase::Ground);
    assert_eq!(decoder.read_key(), None);
    assert!(decoder.pending().is_empty());
    assert_eq!(decoder.phase(), Phase::Ground);
}

#[test]
fn plain_byte_is_decoded_at_once() {
    let mut decoder = KeyDecoder::new();
    assert_eq!(decoder.feed(Input::Byte(b'a')), Ok(Some(Key::Printable(b'a'))));
    assert!(decoder.pending().is_empty());
    assert_eq!(decoder.feed(Input::Byte(13)), Ok(Some(Key::Newline)));
    assert_eq!(decoder.feed(Input::Byte(127)), Ok(Some(Key::Backspace)));
    assert_eq!(decoder.feed(Input::Byte(1)), Ok(Some(Key::Control('A'))));
    assert_eq!(decoder.feed(Input::Byte(26)), Ok(Some(Key::Control('Z'))));
    assert_eq!(decoder.feed(Input::Byte(65)), Ok(Some(Key::Printable(65))));
    assert!(decoder.pending().is_empty());
}

#[test]
fn read_without_data_is_tried_again() {
    let mut decoder = KeyDecoder::new();
    assert_eq!(decoder.feed(Input::Absent), Ok(None));
    assert_eq!(decoder.feed(Input::Absent), Ok(None));
    assert_eq!(decoder.phase(), Phase::Ground);
    assert!(decoder.pending().is_empty());
    assert_eq!(decoder.feed(Input::Byte(b'x')), Ok(Some(Key::Printable(b'x'))));
}

#[test]
fn bare_escape_then_end_of_input() {
    let (decoder, answer) = after_escape([None, None, None]);
    assert_eq!(answer, Some(Key::Escape));
    assert!(decoder.pending().is_empty());
    assert_eq!(decoder.phase(), Phase::Ground);
}

#[test]
fn arrow_sequences() {
    expect_sequence(b"[A", None, Key::Move(Motion::Up), b"");
    expect_sequence(b"[B", None, Key::Move(Motion::Down), b"");
    expect_sequence(b"[C", None, Key::Move(Motion::Right), b"");
    expect_sequence(b"[D", None, Key::Move(Motion::Left), b"");
}

#[test]
fn arrow_sequences_leave_the_third_byte_pending() {
    expect_sequence(b"[A", Some(b'x'), Key::Move(Motion::Up), b"x");
    expect_sequence(b"[B", Some(b'~'), Key::Move(Motion::Down), b"~");
    expect_sequence(b"[C", Some(ESC), Key::Move(Motion::Right), &[ESC]);
    expect_sequence(b"[D", Some(0), Key::Move(Motion::Left), &[0]);
}

#[test]
fn paging_sequences() {
    expect_sequence(b"[5~", None, Key::Move(Motion::PgUp), b"");
    expect_sequence(b"[6~", None, Key::Move(Motion::PgDn), b"");
}

#[test]
fn home_sequences() {
    expect_sequence(b"[1~", None, Key::Move(Motion::Home), b"");
    expect_sequence(b"[7~", None, Key::Move(Motion::Home), b"");
    expect_sequence(b"[OH", None, Key::Move(Motion::Home), b"");
    expect_sequence(b"[H", None, Key::Move(Motion::Home), b"");
    expect_sequence(b"[H", Some(b'j'), Key::Move(Motion::Home), b"j");
}

#[test]
fn end_sequences() {
    expect_sequence(b"[4~", None, Key::Move(Motion::End), b"");
    expect_sequence(b"[8~", None, Key::Move(Motion::End), b"");
    expect_sequence(b"[OF", None, Key::Move(Motion::End), b"");
    expect_sequence(b"[F", None, Key::Move(Motion::End), b"");
    expect_sequence(b"[F", Some(b'j'), Key::Move(Motion::End), b"j");
}

#[test]
fn delete_sequence() {
    expect_sequence(b"[3~", None, Key::Delete, b"");
}

#[test]
fn pending_byte_is_the_next_key() {
    let (mut decoder, answer) = after_escape([Some(b'['), Some(b'A'), Some(b'x')]);
    assert_eq!(answer, Some(Key::Move(Motion::Up)));
    assert_eq!(decoder.read_key(), Some(Key::Printable(b'x')));
    assert!(decoder.pending().is_empty());
    assert_eq!(decoder.read_key(), None);
}

#[test]
fn unmatched_sequence_is_replayed_byte_by_byte() {
    let (mut decoder, answer) = after_escape([Some(b'x'), Some(b'y'), None]);
    assert_eq!(answer, Some(Key::Printable(b'x')));
    assert_eq!(decoder.pending().as_slice(), b"y");
    assert_eq!(decoder.read_key(), Some(Key::Printable(b'y')));
    assert!(decoder.pending().is_empty());
    assert_eq!(decoder.read_key(), None);
    assert_eq!(decoder.phase(), Phase::Ground);
}

#[test]
fn unmatched_sequence_of_three_bytes() {
    let (mut decoder, answer) = after_escape([Some(b'['), Some(b'5'), Some(b'x')]);
    assert_eq!(answer, Some(Key::Printable(b'[')));
    assert_eq!(decoder.pending().as_slice(), b"x5");
    assert_eq!(decoder.read_key(), Some(Key::Printable(b'5')));
    assert_eq!(decoder.read_key(), Some(Key::Printable(b'x')));
    assert_eq!(decoder.read_key(), None);
    assert!(decoder.pending().is_empty());
}

#[test]
fn unmatched_sequence_with_control_bytes() {
    let (mut decoder, answer) = after_escape([Some(13), Some(127), Some(3)]);
    assert_eq!(answer, Some(Key::Newline));
    assert_eq!(decoder.read_key(), Some(Key::Backspace));
    assert_eq!(decoder.read_key(), Some(Key::Control('C')));
    assert_eq!(decoder.read_key(), None);
}

#[test]
fn unmatched_sequence_with_gaps() {
    let (mut decoder, answer) = after_escape([None, Some(b'q'), None]);
    assert_eq!(answer, Some(Key::Printable(b'q')));
    assert!(decoder.pending().is_empty());
    assert_eq!(decoder.read_key(), None);

    let (decoder, answer) = after_escape([Some(b'['), None, None]);
    assert_eq!(answer, Some(Key::Printable(b'[')));
    assert!(decoder.pending().is_empty());
}

#[test]
fn escape_inside_a_replay_opens_a_new_sequence() {
    // ESC ESC [ A: the first escape byte is dropped, the second one starts
    // the arrow sequence from the replayed bytes and one more read.
    let (mut decoder, answer) = after_escape([Some(ESC), Some(b'['), Some(b'A')]);
    assert_eq!(answer, None);
    assert_eq!(decoder.phase(), Phase::Two(Some(b'['), Some(b'A')));
    assert!(decoder.pending().is_empty());
    assert_eq!(decoder.feed(Input::Absent), Ok(Some(Key::Move(Motion::Up))));
    assert!(decoder.pending().is_empty());
    assert_eq!(decoder.read_key(), None);
}

#[test]
fn replayed_bytes_fill_a_whole_window() {
    // ESC x ESC, then [ 5 ~ from the stream.
    let (mut decoder, answer) = after_escape([Some(b'x'), Some(ESC), Some(b'[')]);
    assert_eq!(answer, Some(Key::Printable(b'x')));
    assert_eq!(decoder.pending().as_slice(), &[b'[', ESC]);
    assert_eq!(decoder.read_key(), None);
    assert_eq!(decoder.phase(), Phase::One(Some(b'[')));
    assert_eq!(decoder.feed(Input::Byte(b'5')), Ok(None));
    assert_eq!(decoder.feed(Input::Byte(b'~')), Ok(Some(Key::Move(Motion::PgUp))));
    assert!(decoder.pending().is_empty());
}

#[test]
fn escape_bytes_in_a_row_end_in_one_escape_key() {
    // Four escape bytes: each unmatched window drops one of them.
    let (mut decoder, answer) = after_escape([Some(ESC), Some(ESC), Some(ESC)]);
    assert_eq!(answer, None);
    assert_eq!(decoder.phase(), Phase::Two(Some(ESC), Some(ESC)));
    assert_eq!(decoder.feed(Input::Absent), Ok(None));
    assert_eq!(decoder.phase(), Phase::One(Some(ESC)));
    assert_eq!(decoder.feed(Input::Absent), Ok(None));
    assert_eq!(decoder.phase(), Phase::Two(Some(ESC), None));
    assert_eq!(decoder.feed(Input::Absent), Ok(None));
    assert_eq!(decoder.phase(), Phase::Opened);
    assert_eq!(decoder.feed(Input::Absent), Ok(None));
    assert_eq!(decoder.feed(Input::Absent), Ok(None));
    assert_eq!(decoder.feed(Input::Absent), Ok(Some(Key::Escape)));
    assert!(decoder.pending().is_empty());
    assert_eq!(decoder.phase(), Phase::Ground);
}

#[test]
fn byte_fed_while_others_are_pending_waits_behind_them() {
    let (mut decoder, answer) = after_escape([Some(b'['), Some(b'A'), Some(b'x')]);
    assert_eq!(answer, Some(Key::Move(Motion::Up)));
    assert_eq!(decoder.feed(Input::Byte(b'y')), Ok(Some(Key::Printable(b'x'))));
    assert_eq!(decoder.pending().as_slice(), b"y");
    assert_eq!(decoder.read_key(), Some(Key::Printable(b'y')));
    assert_eq!(decoder.read_key(), None);
}

#[test]
fn failed_read_is_a_stream_error() {
    let mut decoder = KeyDecoder::new();
    assert_eq!(decoder.feed(Input::Failed), Err(TermError::Stream));
    assert_eq!(decoder.phase(), Phase::Ground);
    assert!(decoder.pending().is_empty());
}

#[test]
fn failed_read_abandons_the_open_sequence() {
    let mut decoder = KeyDecoder::new();
    assert_eq!(decoder.feed(Input::Byte(ESC)), Ok(None));
    assert_eq!(decoder.feed(Input::Byte(b'[')), Ok(None));
    assert_eq!(decoder.phase(), Phase::One(Some(b'[')));
    assert_eq!(decoder.feed(Input::Failed), Err(TermError::Stream));
    assert_eq!(decoder.phase(), Phase::Ground);
    assert!(decoder.pending().is_empty());
    assert_eq!(decoder.feed(Input::Byte(b'A')), Ok(Some(Key::Printable(b'A'))));
}

#[test]
fn phases_while_a_sequence_is_gathered() {
    let mut decoder = KeyDecoder::new();
    assert_eq!(decoder.feed(Input::Byte(ESC)), Ok(None));
    assert_eq!(decoder.phase(), Phase::Opened);
    assert_eq!(decoder.feed(Input::Absent), Ok(None));
    assert_eq!(decoder.phase(), Phase::One(None));
    assert_eq!(decoder.feed(Input::Byte(b'k')), Ok(None));
    assert_eq!(decoder.phase(), Phase::Two(None, Some(b'k')));
    assert_eq!(decoder.read_key(), None);
    assert_eq!(decoder.phase(), Phase::Two(None, Some(b'k')));
    assert_eq!(decoder.feed(Input::Absent), Ok(Some(Key::Printable(b'k'))));
    assert_eq!(decoder.phase(), Phase::Ground);
}

#[test]
fn fill_takes_the_next_empty_slot() {
    assert_eq!(Phase::Opened.fill(Some(1)), Phase::One(Some(1)));
    assert_eq!(Phase::One(None).fill(Some(2)), Phase::Two(None, Some(2)));
    assert_eq!(Phase::Two(Some(1), None).fill(None), Phase::Full(Some(1), None, None));
    assert_eq!(Phase::Ground.fill(Some(1)), Phase::Ground);
    assert_eq!(Phase::Full(None, None, None).fill(Some(1)), Phase::Full(None, None, None));
}

fn filled(phase: Phase) -> usize {
    match phase {
        Phase::Ground | Phase::Opened => 0,
        Phase::One(_) => 1,
        Phase::Two(_, _) => 2,
        Phase::Full(_, _, _) => 3,
    }
}

#[test]
fn pushback_never_holds_more_than_three_places() {
    let stream: [Option<u8>; 24] = [
        Some(ESC), Some(ESC), Some(b'x'), Some(ESC), Some(b'['), Some(b'A'), Some(b'y'), None,
        Some(ESC), Some(b'['), Some(b'5'), Some(b'z'), Some(ESC), None, Some(ESC), Some(ESC),
        Some(ESC), Some(b'['), Some(b'3'), Some(b'~'), None, None, None, None,
    ];
    let mut decoder = KeyDecoder::new();
    let mut keys = Vec::new();
    for slot in stream {
        while let Some(key) = decoder.read_key() {
            keys.push(key);
            assert!(decoder.pending().len() + filled(decoder.phase()) <= 3);
        }
        let input = match slot {
            Some(byte) => Input::Byte(byte),
            None => Input::Absent,
        };
        if let Some(key) = decoder.feed(input).unwrap() {
            keys.push(key);
        }
        assert!(decoder.pending().len() + filled(decoder.phase()) <= 3);
    }
    while let Some(key) = decoder.read_key() {
        keys.push(key);
    }
    assert_eq!(
        keys,
        vec![
            Key::Printable(b'x'),
            Key::Move(Motion::Up),
            Key::Printable(b'y'),
            Key::Printable(b'['),
            Key::Printable(b'5'),
            Key::Printable(b'z'),
            Key::Delete,
        ]
    );
}

#[test]
fn end_of_stream_while_a_key_is_awaited_is_a_stream_error() {
    let mut decoder = KeyDecoder::new();
    assert_eq!(decoder.read_key(), None);
    assert_eq!(decoder.feed(Input::Ended), Err(TermError::Stream));
    assert_eq!(decoder.phase(), Phase::Ground);
    assert!(decoder.pending().is_empty());
    assert_eq!(decoder.feed(Input::Ended), Err(TermError::Stream));
}

#[test]
fn end_of_stream_inside_a_sequence_leaves_a_slot_empty() {
    let mut decoder = KeyDecoder::new();
    assert_eq!(decoder.feed(Input::Byte(ESC)), Ok(None));
    assert_eq!(decoder.feed(Input::Ended), Ok(None));
    assert_eq!(decoder.phase(), Phase::One(None));
    assert_eq!(decoder.feed(Input::Ended), Ok(None));
    assert_eq!(decoder.feed(Input::Ended), Ok(Some(Key::Escape)));
    assert!(decoder.pending().is_empty());
    assert_eq!(decoder.phase(), Phase::Ground);
    assert_eq!(decoder.read_key(), None);
    assert_eq!(decoder.feed(Input::Ended), Err(TermError::Stream));
}

#[test]
fn end_of_stream_after_an_arrow_sequence() {
    let mut decoder = KeyDecoder::new();
    assert_eq!(decoder.feed(Input::Byte(ESC)), Ok(None));
    assert_eq!(decoder.feed(Input::Byte(b'[')), Ok(None));
    assert_eq!(decoder.feed(Input::Byte(b'B')), Ok(None));
    assert_eq!(decoder.feed(Input::Ended), Ok(Some(Key::Move(Motion::Down))));
    assert_eq!(decoder.feed(Input::Ended), Err(TermError::Stream));
}

#[test]
fn end_of_stream_replays_an_unmatched_sequence() {
    let mut decoder = KeyDecoder::new();
    assert_eq!(decoder.feed(Input::Byte(ESC)), Ok(None));
    assert_eq!(decoder.feed(Input::Byte(b'x')), Ok(None));
    assert_eq!(decoder.feed(Input::Ended), Ok(None));
    assert_eq!(decoder.feed(Input::Ended), Ok(Some(Key::Printable(b'x'))));
    assert_eq!(decoder.read_key(), None);
    assert_eq!(decoder.feed(Input::Ended), Err(TermError::Stream));
}

#[test]
fn result_of_a_read_is_judged_by_its_count() {
    assert_eq!(Input::from_read(1, b'a', false), Input::Byte(b'a'));
    assert_eq!(Input::from_read(1, 0, true), Input::Byte(0));
    assert_eq!(Input::from_read(0, 0, false), Input::Absent);
    assert_eq!(Input::from_read(0, b'a', false), Input::Absent);
    assert_eq!(Input::from_read(0, 0, true), Input::Ended);
    assert_eq!(Input::from_read(-1, 0, false), Input::Failed);
    assert_eq!(Input::from_read(-1, b'a', true), Input::Failed);
    assert_eq!(Input::from_read(isize::MIN, 0, false), Input::Failed);
}
