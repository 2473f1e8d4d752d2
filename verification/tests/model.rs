use mblp::address::{address_text, is_address_valid, manage_address_input, settle_address};
use mblp::clock::TIME_OF_DAY;
use mblp::journal::JOURNAL_LINES;
use mblp::model::{stamped, Connection, Model, DEFAULT_ADDRESS};

#[test]
fn default_model_knows_nothing() {
    let model = Model::default();
    assert!(model.ports.is_empty());
    assert!(matches!(model.connection, Connection::Disconnected));
    assert!(!model.is_connected());
    assert!(model.lines().is_empty());
    assert_eq!(model.version, None);
    assert_eq!(model.device_address, "14030100");
    assert_eq!(DEFAULT_ADDRESS, "14030100");
}

#[test]
fn connected_model_says_so() {
    let mut model = Model::default();
    model.connection = Connection::Connected(String::from("/dev/ttyUSB0"));
    assert!(model.is_connected());
    model.connection = Connection::Disconnected;
    assert!(!model.is_connected());
}

#[test]
fn line_is_stamp_in_brackets_then_notice() {
    assert_eq!(stamped("12:34:56", "Connected"), "[12:34:56] Connected");
    assert_eq!(stamped("ab", "x"), "[ab      ] x");
    assert_eq!(stamped("", ""), "[        ] ");
    assert_eq!(stamped("123456789", "long"), "[123456789] long");
    // The width counts characters, not bytes.
    assert_eq!(stamped("äöüäöü", "y"), "[äöüäöü  ] y");
}

#[test]
fn journal_keeps_the_last_eight_lines() {
    assert_eq!(JOURNAL_LINES, 8);
    let mut model = Model::default();
    for i in 0..8 {
        model.message_at("00:00:00", format!("notice {}", i));
        assert_eq!(model.lines().len(), i + 1);
    }
    assert_eq!(model.lines()[0], "[00:00:00] notice 0");
    assert_eq!(model.lines()[7], "[00:00:00] notice 7");
    model.message_at("00:00:01", String::from("notice 8"));
    let lines = model.lines();
    assert_eq!(lines.len(), 8);
    assert_eq!(lines[0], "[00:00:00] notice 1");
    assert_eq!(lines[6], "[00:00:00] notice 7");
    assert_eq!(lines[7], "[00:00:01] notice 8");
    for i in 9..30 {
        model.message_at("00:00:02", format!("notice {}", i));
    }
    let lines = model.lines();
    assert_eq!(lines.len(), 8);
    assert_eq!(lines[0], "[00:00:02] notice 22");
    assert_eq!(lines[7], "[00:00:02] notice 29");
}

#[test]
fn message_leaves_the_rest_of_the_model() {
    let mut model = Model::default();
    model.ports = vec![String::from("COM1"), String::from("COM2")];
    model.connection = Connection::Connected(String::from("COM2"));
    model.version = Some((1, 2, 3));
    model.device_address = String::from("0000002A");
    model.message_at("10:00:00", String::from("hello"));
    assert_eq!(model.ports, vec![String::from("COM1"), String::from("COM2")]);
    assert!(matches!(&model.connection, Connection::Connected(port) if port == "COM2"));
    assert_eq!(model.version, Some((1, 2, 3)));
    assert_eq!(model.device_address, "0000002A");
}

#[test]
fn message_is_stamped_with_the_time_of_day() {
    let mut model = Model::default();
    model.message(String::from("Connected"));
    let lines = model.lines();
    assert_eq!(lines.len(), 1);
    let line: Vec<char> = lines[0].chars().collect();
    assert_eq!(line.len(), "[00:00:00] Connected".len());
    assert_eq!(line[0], '[');
    for i in [1, 2, 4, 5, 7, 8] {
        assert!(line[i].is_ascii_digit());
    }
    assert_eq!(line[3], ':');
    assert_eq!(line[6], ':');
    assert_eq!(line[9], ']');
    assert!(lines[0].ends_with("] Connected"));
}

#[test]
fn clone_of_a_model_has_its_journal() {
    let mut model = Model::default();
    model.message_at("10:00:00", String::from("one"));
    model.message_at("10:00:01", String::from("two"));
    let copy = model.clone();
    model.message_at("10:00:02", String::from("three"));
    assert_eq!(copy.lines(), vec![String::from("[10:00:00] one"), String::from("[10:00:01] two")]);
    assert_eq!(model.lines().len(), 3);
}

#[test]
fn typed_address_stands_where_it_is_a_serial_number() {
    assert!(is_address_valid("14030100"));
    assert!(is_address_valid("ffffffff"));
    assert!(is_address_valid("2A"));
    assert!(!is_address_valid(""));
    assert!(!is_address_valid("1403010G"));
    assert!(!is_address_valid("100000000"));
    assert!(!is_address_valid(" 14"));
    assert_eq!(manage_address_input("2A", "14030100"), "2A");
    assert_eq!(manage_address_input("2Z", "14030100"), "14030100");
    assert_eq!(manage_address_input("", "14030100"), "14030100");
    assert_eq!(manage_address_input("100000000", "14030100"), "14030100");
    assert_eq!(settle_address("abc", Some(0xABC), "00000001"), "abc");
    assert_eq!(settle_address("xyz", None, "00000001"), "00000001");
    assert_eq!(settle_address("", Some(0), "00000001"), "00000001");
}

#[test]
fn address_is_shown_as_eight_capital_hex_digits() {
    assert_eq!(address_text(0x14030100), "14030100");
    assert_eq!(address_text(0), "00000000");
    assert_eq!(address_text(0x2A), "0000002A");
    assert_eq!(address_text(0xDEADBEEF), "DEADBEEF");
    assert_eq!(address_text(u32::MAX), "FFFFFFFF");
    assert_eq!(address_text(0x01234567), "01234567");
    assert_eq!(address_text(0x89ABCDEF), "89ABCDEF");
    for serial in [0u32, 1, 15, 16, 255, 0x14030100, 0x80000000, u32::MAX] {
        assert_eq!(address_text(serial), format!("{:08X}", serial));
        assert!(is_address_valid(&address_text(serial)));
        assert_eq!(u32::from_str_radix(&address_text(serial), 16), Ok(serial));
    }
}

#[test]
fn time_of_day_is_hours_minutes_and_seconds() {
    assert_eq!(TIME_OF_DAY, "[hour]:[minute]:[second]");
    // The description is one that is read: a notice gets its time.
    let mut model = Model::default();
    model.message(String::from("x"));
    let line = &model.lines()[0];
    assert_ne!(line.as_str(), "[        ] x");
    assert_eq!(line.len(), "[00:00:00] x".len());
}
