use boot_console::console::{print, Stdout};
use boot_console::text::{digit_char, push_decimal, push_hex_digits, same_text, string_of};

fn shown(out: &Stdout) -> String {
    out.sent().iter().collect()
}

#[test]
fn new_console_is_empty() {
    assert!(Stdout::new().sent().is_empty());
}

#[test]
fn characters_arrive_in_order() {
    let mut out = Stdout::new();
    out.emit_char('a');
    out.emit_char('b');
    out.write_str("cd");
    out.write_str("");
    out.emit_char('é');
    assert_eq!(out.sent(), &vec!['a', 'b', 'c', 'd', 'é']);
}

#[test]
fn print_appends_the_text() {
    let mut out = Stdout::new();
    print(&mut out, "one");
    print(&mut out, " two");
    assert_eq!(shown(&out), "one two");
}

#[test]
fn println_ends_the_line() {
    let mut out = Stdout::new();
    boot_console::console::println(&mut out, "one");
    boot_console::console::println(&mut out, "");
    assert_eq!(shown(&out), "one\n\n");
}

#[test]
fn take_empties_the_console() {
    let mut out = Stdout::new();
    print(&mut out, "abc");
    assert_eq!(out.take(), vec!['a', 'b', 'c']);
    assert!(out.sent().is_empty());
    print(&mut out, "d");
    assert_eq!(out.take(), vec!['d']);
}

#[test]
fn decimal_numbers() {
    let mut out = Stdout::new();
    out.write_decimal(0);
    out.emit_char(' ');
    out.write_decimal(7);
    out.emit_char(' ');
    out.write_decimal(10);
    out.emit_char(' ');
    out.write_decimal(42);
    out.emit_char(' ');
    out.write_decimal(1009);
    out.emit_char(' ');
    out.write_decimal(4294967295);
    out.emit_char(' ');
    out.write_decimal(u64::MAX);
    assert_eq!(shown(&out), "0 7 10 42 1009 4294967295 18446744073709551615");
}

#[test]
fn hexadecimal_numbers() {
    let mut out = Stdout::new();
    out.write_hex(0);
    out.emit_char(' ');
    out.write_hex(9);
    out.emit_char(' ');
    out.write_hex(10);
    out.emit_char(' ');
    out.write_hex(255);
    out.emit_char(' ');
    out.write_hex(256);
    out.emit_char(' ');
    out.write_hex(0x8020_0000);
    out.emit_char(' ');
    out.write_hex(u64::MAX);
    assert_eq!(shown(&out), "0x0 0x9 0xa 0xff 0x100 0x80200000 0xffffffffffffffff");
}

#[test]
fn digits_follow_what_is_there() {
    let mut chars = vec!['n', '='];
    push_decimal(&mut chars, 120);
    chars.push('/');
    push_hex_digits(&mut chars, 0xbeef);
    assert_eq!(chars.iter().collect::<String>(), "n=120/beef");
}

#[test]
fn digit_characters() {
    let all: String = (0u8..16).map(digit_char).collect();
    assert_eq!(all, "0123456789abcdef");
}

#[test]
fn same_text_compares_characters() {
    assert!(same_text("", ""));
    assert!(same_text("INFO", "INFO"));
    assert!(same_text("größe", "größe"));
    assert!(!same_text("INFO", "INFo"));
    assert!(!same_text("INFO", "INF"));
    assert!(!same_text("INF", "INFO"));
    assert!(!same_text("", "x"));
    assert!(!same_text("aé", "ae"));
}

#[test]
fn string_of_keeps_every_character() {
    assert_eq!(string_of(&vec![]), "");
    assert_eq!(string_of(&vec!['o', 'k']), "ok");
    assert_eq!(string_of(&vec!['→', '\n', 'x']), "→\nx");
}
