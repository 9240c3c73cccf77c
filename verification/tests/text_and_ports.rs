use matchmaker::ports::find_available_port;
use matchmaker::ports::get_available_port;
use matchmaker::ports::FIRST_PORT;
use matchmaker::ports::PORT_LIMIT;
use matchmaker::text::char_is_whitespace;
use matchmaker::text::port_text;
use matchmaker::text::split_whitespace;
use matchmaker::text::text_equals;
use std::cell::Cell;
use std::cell::RefCell;

fn words(line: &str) -> Vec<String> {
    line.split_whitespace().map(|word| word.to_string()).collect()
}

#[test]
fn white_space_is_what_unicode_says() {
    let mut code: u32 = 0;
    while code <= 0x10FFFF {
        if let Some(c) = char::from_u32(code) {
            assert_eq!(char_is_whitespace(c), c.is_whitespace(), "U+{:04X}", code);
        }
        code += 1;
    }
}

#[test]
fn white_space_examples() {
    assert!(char_is_whitespace(' '));
    assert!(char_is_whitespace('\t'));
    assert!(char_is_whitespace('\n'));
    assert!(char_is_whitespace('\r'));
    assert!(char_is_whitespace('\u{A0}'));
    assert!(char_is_whitespace('\u{3000}'));
    assert!(!char_is_whitespace('a'));
    assert!(!char_is_whitespace('-'));
    assert!(!char_is_whitespace('\u{200B}'));
}

#[test]
fn line_of_one_word_has_one_token() {
    assert_eq!(split_whitespace("connect"), vec!["connect".to_string()]);
    assert_eq!(split_whitespace("connect\n"), vec!["connect".to_string()]);
    assert_eq!(split_whitespace("  ping \r\n"), vec!["ping".to_string()]);
}

#[test]
fn line_of_two_words_has_two_tokens() {
    assert_eq!(split_whitespace("connect now"), vec!["connect".to_string(), "now".to_string()]);
    assert_eq!(
        split_whitespace("\tconnect \u{2003} now\n"),
        vec!["connect".to_string(), "now".to_string()]
    );
}

#[test]
fn blank_line_has_no_token() {
    assert_eq!(split_whitespace(""), Vec::<String>::new());
    assert_eq!(split_whitespace(" \t\r\n"), Vec::<String>::new());
}

#[test]
fn tokens_agree_with_the_standard_library() {
    let lines = [
        "",
        " ",
        "a",
        " a",
        "a ",
        "a b",
        "a  b",
        "  a  b  ",
        "protocol-version",
        "connect\r\n",
        "one two three four",
        "\u{85}x\u{1680}y\u{2028}z\u{205F}",
        "h\u{e9}llo w\u{f6}rld \u{4e16}\u{754c}",
        "tab\tseparated\tvalues",
        "\n\nlines\n\n",
    ];
    for line in lines {
        assert_eq!(split_whitespace(line), words(line), "{:?}", line);
    }
}

#[test]
fn texts_are_compared_by_their_characters() {
    assert!(text_equals("connect", "connect"));
    assert!(text_equals("", ""));
    assert!(!text_equals("connect", "Connect"));
    assert!(!text_equals("connect", "connect "));
    assert!(!text_equals("a", ""));
}

#[test]
fn ports_are_written_in_decimal() {
    assert_eq!(port_text(0), "0");
    assert_eq!(port_text(7), "7");
    assert_eq!(port_text(10), "10");
    assert_eq!(port_text(100), "100");
    assert_eq!(port_text(8005), "8005");
    assert_eq!(port_text(9000), "9000");
    assert_eq!(port_text(65535), "65535");
}

#[test]
fn every_port_is_written_as_the_standard_library_writes_it() {
    let mut port: u16 = 0;
    loop {
        assert_eq!(port_text(port), port.to_string());
        if port == u16::MAX {
            break;
        }
        port += 1;
    }
}

#[test]
fn port_range_is_8000_to_9000() {
    assert_eq!(FIRST_PORT, 8000);
    assert_eq!(PORT_LIMIT, 9000);
}

#[test]
fn first_port_is_taken_when_all_are_free() {
    assert_eq!(get_available_port(|_| true), Some(8000));
}

#[test]
fn lowest_free_port_is_found() {
    assert_eq!(get_available_port(|port| port >= 8003), Some(8003));
    assert_eq!(get_available_port(|port| port == 8500 || port == 8700), Some(8500));
    assert_eq!(get_available_port(|port| port == 8999), Some(8999));
}

#[test]
fn no_port_is_found_when_the_range_is_full() {
    assert_eq!(get_available_port(|_| false), None);
    assert_eq!(get_available_port(|port| port < 8000 || port >= 9000), None);
}

#[test]
fn ports_are_probed_in_ascending_order_up_to_the_first_free_one() {
    let probed: RefCell<Vec<u16>> = RefCell::new(Vec::new());
    let found = get_available_port(|port| {
        probed.borrow_mut().push(port);
        port == 8004
    });
    assert_eq!(found, Some(8004));
    assert_eq!(*probed.borrow(), vec![8000, 8001, 8002, 8003, 8004]);
}

#[test]
fn whole_range_is_probed_once_when_nothing_is_free() {
    let count = Cell::new(0u32);
    let lowest = Cell::new(u16::MAX);
    let highest = Cell::new(0u16);
    let found = get_available_port(|port| {
        count.set(count.get() + 1);
        lowest.set(lowest.get().min(port));
        highest.set(highest.get().max(port));
        false
    });
    assert_eq!(found, None);
    assert_eq!(count.get(), 1000);
    assert_eq!(lowest.get(), 8000);
    assert_eq!(highest.get(), 8999);
}

#[test]
fn allocated_port_probes_free_again() {
    let taken: Vec<u16> = vec![8000, 8001, 8005];
    let probe = |port: u16| !taken.contains(&port);
    let found = get_available_port(&probe).unwrap();
    assert_eq!(found, 8002);
    assert!(probe(found));
    assert!((8000..9000).contains(&found));
}

#[test]
fn second_allocation_skips_the_port_of_the_first() {
    let taken: RefCell<Vec<u16>> = RefCell::new(Vec::new());
    let first = get_available_port(|port| !taken.borrow().contains(&port)).unwrap();
    taken.borrow_mut().push(first);
    let second = get_available_port(|port| !taken.borrow().contains(&port)).unwrap();
    assert_eq!(first, 8000);
    assert_eq!(second, 8001);
    assert_ne!(first, second);
}

#[test]
fn any_range_can_be_scanned() {
    assert_eq!(find_available_port(|port| port % 7 == 0, 100, 200), Some(105));
    assert_eq!(find_available_port(|_| true, 65535, 65535), None);
    assert_eq!(find_available_port(|_| true, 9000, 8000), None);
    assert_eq!(find_available_port(|_| true, 65534, 65535), Some(65534));
    assert_eq!(find_available_port(|port| port > 0, 0, 3), Some(1));
    assert_eq!(find_available_port(|port| port > 5, 0, 3), None);
}
