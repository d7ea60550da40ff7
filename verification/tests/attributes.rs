use rawterm::attributes::check_attribute_status;
use rawterm::{ModeBits, TermError, TerminalAttributes};

fn all_set() -> TerminalAttributes {
    TerminalAttributes {
        input_flags: u32::MAX,
        output_flags: u32::MAX,
        control_flags: u32::MAX,
        local_flags: u32::MAX,
        min_bytes: 1,
        timeout: 0,
    }
}

fn all_clear() -> TerminalAttributes {
    TerminalAttributes {
        input_flags: 0,
        output_flags: 0,
        control_flags: 0,
        local_flags: 0,
        min_bytes: 1,
        timeout: 0,
    }
}

fn sample_bits() -> ModeBits {
    ModeBits {
        echo: 0x8,
        canonical: 0x2,
        signals: 0x1,
        extended: 0x8000,
        flow_control: 0x400,
        carriage_return: 0x100,
        break_signal: 0x2,
        parity_check: 0x10,
        strip_eighth: 0x20,
        post_process: 0x1,
        size_mask: 0x30,
        eight_bit: 0x30,
    }
}

#[test]
fn native_bits_are_those_of_libc() {
    let bits = ModeBits::native();
    assert_eq!(bits.echo, libc::ECHO);
    assert_eq!(bits.canonical, libc::ICANON);
    assert_eq!(bits.signals, libc::ISIG);
    assert_eq!(bits.extended, libc::IEXTEN);
    assert_eq!(bits.flow_control, libc::IXON);
    assert_eq!(bits.carriage_return, libc::ICRNL);
    assert_eq!(bits.break_signal, libc::BRKINT);
    assert_eq!(bits.parity_check, libc::INPCK);
    assert_eq!(bits.strip_eighth, libc::ISTRIP);
    assert_eq!(bits.post_process, libc::OPOST);
    assert_eq!(bits.size_mask, libc::CSIZE);
    assert_eq!(bits.eight_bit, libc::CS8);
}

#[test]
fn native_bits_have_the_stated_values() {
    assert_eq!(ModeBits::native(), sample_bits());
    let bits = ModeBits::native();
    assert_eq!(bits.echo, 0x8);
    assert_eq!(bits.canonical, 0x2);
    assert_eq!(bits.signals, 0x1);
    assert_eq!(bits.extended, 0x8000);
    assert_eq!(bits.flow_control, 0x400);
    assert_eq!(bits.carriage_return, 0x100);
    assert_eq!(bits.break_signal, 0x2);
    assert_eq!(bits.parity_check, 0x10);
    assert_eq!(bits.strip_eighth, 0x20);
    assert_eq!(bits.post_process, 0x1);
    assert_eq!(bits.size_mask, 0x30);
    assert_eq!(bits.eight_bit, 0x30);
}

#[test]
fn raw_mode_with_given_bits() {
    let mut attributes = all_set();
    attributes.enable_raw_mode_with(&sample_bits());
    assert_eq!(attributes.local_flags, 0xffff_7ff4);
    assert_eq!(attributes.input_flags, 0xffff_facd);
    assert_eq!(attributes.output_flags, 0xffff_fffe);
    assert_eq!(attributes.control_flags, 0xffff_ffff);
    assert_eq!(attributes.min_bytes, 0);
    assert_eq!(attributes.timeout, 1);
}

#[test]
fn raw_mode_sets_the_character_size() {
    let mut attributes = all_clear();
    attributes.enable_raw_mode_with(&sample_bits());
    assert_eq!(attributes.local_flags, 0);
    assert_eq!(attributes.input_flags, 0);
    assert_eq!(attributes.output_flags, 0);
    assert_eq!(attributes.control_flags, 0x30);
    assert_eq!(attributes.min_bytes, 0);
    assert_eq!(attributes.timeout, 1);
}

#[test]
fn raw_mode_with_the_bits_of_this_platform() {
    let mut attributes = all_set();
    attributes.enable_raw_mode();
    let local = libc::ECHO | libc::ICANON | libc::ISIG | libc::IEXTEN;
    let input = libc::IXON | libc::ICRNL | libc::BRKINT | libc::INPCK | libc::ISTRIP;
    assert_eq!(attributes.local_flags, !local);
    assert_eq!(attributes.input_flags, !input);
    assert_eq!(attributes.output_flags, !libc::OPOST);
    assert_eq!(attributes.control_flags, (u32::MAX & !libc::CSIZE) | libc::CS8);
    assert_eq!(attributes.local_flags & libc::ECHO, 0);
    assert_eq!(attributes.control_flags & libc::CSIZE, libc::CS8);
    assert_eq!(attributes.min_bytes, 0);
    assert_eq!(attributes.timeout, 1);
}

#[test]
fn output_flags_lose_post_processing_and_nothing_else() {
    let mut attributes = all_clear();
    attributes.output_flags = 0x0000_0005;
    attributes.enable_raw_mode();
    assert_eq!(attributes.output_flags, 0x0000_0004);
    let mut attributes = all_clear();
    attributes.output_flags = 0x0000_0034;
    attributes.enable_raw_mode();
    assert_eq!(attributes.output_flags, 0x0000_0034);
}

#[test]
fn character_size_is_forced_to_eight_bits() {
    for old in [0x0000_0480u32, 0x0000_0490, 0x0000_04a0, 0x0000_04b0] {
        let mut attributes = all_clear();
        attributes.control_flags = old;
        attributes.enable_raw_mode();
        assert_eq!(attributes.control_flags, 0x0000_04b0);
    }
    let mut bits = sample_bits();
    bits.size_mask = 0x300;
    bits.eight_bit = 0x200;
    let mut attributes = all_clear();
    attributes.control_flags = 0x0000_0107;
    attributes.enable_raw_mode_with(&bits);
    assert_eq!(attributes.control_flags, 0x0000_0207);
}

#[test]
fn raw_mode_twice_is_raw_mode_once() {
    let mut once = all_set();
    once.enable_raw_mode();
    let mut twice = once;
    twice.enable_raw_mode();
    assert_eq!(once, twice);
}

#[test]
fn disabling_processing_keeps_the_read_timing() {
    let mut attributes = all_set();
    attributes.min_bytes = 7;
    attributes.timeout = 9;
    attributes.disable_processing(&sample_bits());
    assert_eq!(attributes.local_flags, 0xffff_7ff4);
    assert_eq!(attributes.input_flags, 0xffff_facd);
    assert_eq!(attributes.output_flags, 0xffff_fffe);
    assert_eq!(attributes.control_flags, 0xffff_ffff);
    assert_eq!(attributes.min_bytes, 7);
    assert_eq!(attributes.timeout, 9);
}

#[test]
fn status_zero_is_success() {
    assert_eq!(check_attribute_status(0), Ok(()));
}

#[test]
fn any_other_status_is_an_attribute_failure() {
    assert_eq!(check_attribute_status(-1), Err(TermError::Attributes));
    assert_eq!(check_attribute_status(1), Err(TermError::Attributes));
    assert_eq!(check_attribute_status(i32::MIN), Err(TermError::Attributes));
}

#[test]
fn messages_of_the_errors() {
    assert_eq!(TermError::Attributes.message(), "cannot read terminal attributes");
    assert_eq!(TermError::WindowSize.message(), "cannot determine window size");
    assert_eq!(TermError::Stream.message(), "cannot read from or write to the terminal");
}
