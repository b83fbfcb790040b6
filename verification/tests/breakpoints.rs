use rusty_gbc::debugger::{u16_fromhex, Debugger};

#[test]
fn hexadecimal_words_are_addresses() {
    assert_eq!(u16_fromhex("0000"), Some(0x0000));
    assert_eq!(u16_fromhex("0100"), Some(0x0100));
    assert_eq!(u16_fromhex("c3fF"), Some(0xC3FF));
    assert_eq!(u16_fromhex("ABCD"), Some(0xABCD));
    assert_eq!(u16_fromhex("1234"), Some(0x1234));
}

#[test]
fn other_words_are_not() {
    assert_eq!(u16_fromhex(""), None);
    assert_eq!(u16_fromhex("100"), None);
    assert_eq!(u16_fromhex("00100"), None);
    assert_eq!(u16_fromhex("01g0"), None);
    assert_eq!(u16_fromhex("0x10"), None);
    assert_eq!(u16_fromhex("01 0"), None);
    assert_eq!(u16_fromhex("é00"), None);
    assert_eq!(u16_fromhex("éé"), None);
    assert_eq!(u16_fromhex("12é4"), None);
}

#[test]
fn list_of_breakpoints() {
    let debugger = Debugger::new("0100 c000\t\nFFFE  0100 ");
    assert_eq!(debugger.breakpoints.len(), 3);
    assert!(debugger.breaks_at(0x0100));
    assert!(debugger.breaks_at(0xC000));
    assert!(debugger.breaks_at(0xFFFE));
    assert!(!debugger.breaks_at(0x0000));
    assert!(!debugger.breaks_at(0x0001));
}

#[test]
fn empty_list_has_no_breakpoints() {
    assert!(Debugger::new("").breakpoints.is_empty());
    assert!(Debugger::new(" \n ").breakpoints.is_empty());
    assert!(Debugger::parse("").unwrap().breakpoints.is_empty());
}

#[test]
fn list_with_a_bad_word_gives_no_debugger() {
    assert!(Debugger::parse("0100 c000").is_some());
    assert!(Debugger::parse("0100 c00").is_none());
    assert!(Debugger::parse("0100 zzzz 0200").is_none());
    assert!(Debugger::parse("010000").is_none());
    let debugger = Debugger::parse(" 0040 0048 ").unwrap();
    assert!(debugger.breaks_at(0x40));
    assert!(debugger.breaks_at(0x48));
    assert!(!debugger.breaks_at(0x50));
}

#[test]
fn words_given_one_by_one() {
    let words: Vec<String> = vec!["00ff".to_string(), "FF00".to_string()];
    let debugger = Debugger::from_words(&words).unwrap();
    assert!(debugger.breaks_at(0x00FF));
    assert!(debugger.breaks_at(0xFF00));
    assert_eq!(debugger.breakpoints.len(), 2);
    let words: Vec<String> = vec!["00ff".to_string(), "FF 0".to_string()];
    assert!(Debugger::from_words(&words).is_none());
    assert!(Debugger::from_words(&Vec::new()).unwrap().breakpoints.is_empty());
}
