use emerald::debug::{to_addr, AddressError, Command, Debugger};
use emerald::text::WordError;

#[test]
fn addresses_are_read_in_hexadecimal() {
    assert_eq!(to_addr(Some("0")), Ok(0x0000));
    assert_eq!(to_addr(Some("100")), Ok(0x0100));
    assert_eq!(to_addr(Some("ff80")), Ok(0xFF80));
    assert_eq!(to_addr(Some("FFFF")), Ok(0xFFFF));
    assert_eq!(to_addr(Some("aBcD")), Ok(0xABCD));
    assert_eq!(to_addr(Some("+1F")), Ok(0x001F));
    assert_eq!(to_addr(Some("000000000012")), Ok(0x0012));
}

#[test]
fn malformed_addresses_are_refused() {
    assert_eq!(to_addr(None), Err(AddressError::Missing));
    assert_eq!(to_addr(Some("")), Err(AddressError::Invalid(WordError::Empty)));
    for text in ["+", "12G4", "0x10", "-1", " 10", "10 ", "１０", "++1", "G0000"] {
        assert_eq!(to_addr(Some(text)), Err(AddressError::Invalid(WordError::InvalidDigit)));
    }
    for text in ["10000", "FFFFF", "+10000", "FFFF0", "1000G", "FFFFG"] {
        assert_eq!(to_addr(Some(text)), Err(AddressError::Invalid(WordError::TooLarge)));
    }
    assert_eq!(to_addr(Some("0FFFG")), Err(AddressError::Invalid(WordError::InvalidDigit)));
}

#[test]
fn the_debugger_stops_when_stepping_or_at_a_breakpoint() {
    let mut debugger = Debugger::new(false);
    assert!(!debugger.has_quit());
    assert!(!debugger.step(0x0100));
    debugger.add_breakpoint(0x0150);
    assert!(debugger.has_breakpoint(0x0150));
    assert!(!debugger.step(0x0100));
    assert!(debugger.step(0x0150));
    assert!(!debugger.step(0x0151));
    assert!(debugger.remove_breakpoint(0x0150));
    assert!(!debugger.remove_breakpoint(0x0150));
    assert!(!debugger.step(0x0150));
    debugger.stop();
    assert!(debugger.step(0x0000));
    assert!(Debugger::new(true).step(0x1234));
}

#[test]
fn a_stop_at_a_breakpoint_can_switch_stepping_on() {
    let mut debugger = Debugger::new(false);
    assert!(!debugger.apply(Command::AddBreakpoint(0x0200)));
    assert!(!debugger.apply(Command::StepOnBreakpointOn));
    assert!(!debugger.step(0x0100));
    assert!(debugger.step(0x0200));
    assert!(debugger.step(0x0100));
    assert!(debugger.apply(Command::Continue));
    assert!(!debugger.step(0x0100));
    assert!(!debugger.apply(Command::StepOnBreakpointOff));
    assert!(debugger.step(0x0200));
    assert!(!debugger.step(0x0100));
}

#[test]
fn commands_change_the_debugger() {
    let mut debugger = Debugger::new(true);
    assert!(debugger.apply(Command::Next));
    assert!(debugger.step(0));
    assert!(!debugger.apply(Command::StepOff));
    assert!(!debugger.step(0));
    assert!(!debugger.apply(Command::StepOn));
    assert!(debugger.step(0));
    assert!(!debugger.apply(Command::Unknown));
    assert!(!debugger.apply(Command::ShowCpu));
    assert!(!debugger.apply(Command::Reset));
    assert!(debugger.step(0));
    assert!(!debugger.apply(Command::AddBreakpoint(7)));
    assert!(!debugger.apply(Command::RemoveBreakpoint(7)));
    assert!(!debugger.has_breakpoint(7));
    assert!(!debugger.has_quit());
    assert!(debugger.apply(Command::Quit));
    assert!(debugger.has_quit());
}

#[test]
fn commands_are_read_from_words() {
    let plain = [
        ("n", Command::Next),
        ("c", Command::Continue),
        ("s", Command::StepOn),
        ("S", Command::StepOff),
        ("b", Command::StepOnBreakpointOn),
        ("B", Command::StepOnBreakpointOff),
        ("cpu", Command::ShowCpu),
        ("ppu", Command::ShowPpu),
        ("list", Command::List),
        ("reset", Command::Reset),
        ("help", Command::Help),
        ("quit", Command::Quit),
        ("", Command::Unknown),
        ("N", Command::Unknown),
        ("cp", Command::Unknown),
        ("cpus", Command::Unknown),
        ("quit!", Command::Unknown),
    ];
    for (word, command) in plain {
        assert_eq!(Command::parse(word, None), Ok(command));
        assert_eq!(Command::parse(word, Some("zz")), Ok(command));
    }
}

#[test]
fn commands_with_an_address_need_one() {
    assert_eq!(Command::parse("a", Some("1F")), Ok(Command::AddBreakpoint(0x001F)));
    assert_eq!(Command::parse("d", Some("c000")), Ok(Command::RemoveBreakpoint(0xC000)));
    assert_eq!(Command::parse("stack", Some("FFFE")), Ok(Command::Stack(0xFFFE)));
    assert_eq!(Command::parse("peek", Some("0")), Ok(Command::Peek(0x0000)));
    for word in ["a", "d", "stack", "peek"] {
        assert_eq!(Command::parse(word, None), Err(AddressError::Missing));
        assert_eq!(Command::parse(word, Some("12345")), Err(AddressError::Invalid(WordError::TooLarge)));
        assert_eq!(Command::parse(word, Some("x")), Err(AddressError::Invalid(WordError::InvalidDigit)));
    }
}

#[test]
fn the_breakpoints_are_listed_once_each() {
    let mut debugger = Debugger::new(false);
    assert!(debugger.breakpoints().is_empty());
    for address in [0x0150u16, 0x0100, 0xC000, 0x0100] {
        debugger.add_breakpoint(address);
    }
    let mut listed = debugger.breakpoints();
    listed.sort();
    assert_eq!(listed, vec![0x0100, 0x0150, 0xC000]);
    debugger.remove_breakpoint(0x0150);
    let mut listed = debugger.breakpoints();
    listed.sort();
    assert_eq!(listed, vec![0x0100, 0xC000]);
}
