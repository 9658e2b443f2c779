use smtp2larkapi::codec::{encode_standard, encode_text, encode_url_safe, plain_encode, plain_text};
use smtp2larkapi::text::{
    chars_of, fields, find_char, first_word, same_text, scan_spaces, scan_word, trimmed,
};

#[test]
fn plain_encode_is_the_base64_of_nul_user_nul_password() {
    assert_eq!(plain_text("user", "pass"), "\0user\0pass");
    assert_eq!(plain_encode("user", "pass"), "AHVzZXIAcGFzcw==");
    assert_eq!(plain_encode("", ""), "AAA=");
}

#[test]
fn login_challenges_are_the_base64_of_their_prompts() {
    assert_eq!(encode_text("Username:").unwrap(), "VXNlcm5hbWU6");
    assert_eq!(encode_text("Password:").unwrap(), "UGFzc3dvcmQ6");
}

#[test]
fn the_two_alphabets_differ_where_they_should() {
    assert_eq!(encode_standard(&[0xfb, 0xff, 0xfe]).unwrap(), "+//+");
    assert_eq!(encode_url_safe(&[0xfb, 0xff, 0xfe]).unwrap(), "-__-");
    assert_eq!(encode_standard(b"a").unwrap(), "YQ==");
    assert_eq!(encode_url_safe(b"ab").unwrap(), "YWI=");
    assert_eq!(encode_standard(b"").unwrap(), "");
}

#[test]
fn encode_text_encodes_the_utf8_octets() {
    assert_eq!(encode_text("\u{e9}").unwrap(), "w6k=");
}

#[test]
fn first_word_skips_white_space_and_stops_at_it() {
    assert_eq!(first_word("EHLO x\r\n"), "EHLO");
    assert_eq!(first_word("  \t quit\r\n"), "quit");
    assert_eq!(first_word("\r\n"), "");
    assert_eq!(first_word(""), "");
    assert_eq!(first_word("one"), "one");
    assert_eq!(first_word("a\u{a0}b"), "a");
    assert_eq!(first_word("\u{3000}x y"), "x");
}

#[test]
fn trimmed_drops_white_space_at_the_end_only() {
    assert_eq!(trimmed("  a b \r\n"), "  a b");
    assert_eq!(trimmed("\r\n"), "");
    assert_eq!(trimmed(""), "");
    assert_eq!(trimmed("x"), "x");
    assert_eq!(trimmed("x\u{2003}"), "x");
}

#[test]
fn fields_are_cut_at_every_separator() {
    assert_eq!(fields("AUTH PLAIN abc\r\n", ' '), vec!["AUTH", "PLAIN", "abc\r\n"]);
    assert_eq!(fields("AUTH\r\n", ' '), vec!["AUTH\r\n"]);
    assert_eq!(fields("", ' '), vec![""]);
    assert_eq!(fields(" a  b ", ' '), vec!["", "a", "", "b", ""]);
    assert_eq!(fields("\u{e9} \u{e8}", ' '), vec!["\u{e9}", "\u{e8}"]);
}

#[test]
fn scanning_counts_characters() {
    let v = chars_of("\u{e9}<a> b");
    assert_eq!(v.len(), 6);
    assert_eq!(find_char(&v, '<', 0), 1);
    assert_eq!(find_char(&v, '>', 0), 3);
    assert_eq!(find_char(&v, '>', 4), 6);
    assert_eq!(find_char(&v, 'z', 0), 6);
    assert_eq!(scan_word(&v, 0), 4);
    assert_eq!(scan_spaces(&v, 4), 5);
    assert_eq!(scan_spaces(&v, 0), 0);
}

#[test]
fn same_text_compares_characters() {
    assert!(same_text("abc", "abc"));
    assert!(!same_text("abc", "abd"));
    assert!(!same_text("abc", "ab"));
    assert!(same_text("", ""));
}

#[test]
fn decimal_text_writes_numerals() {
    assert_eq!(smtp2larkapi::text::decimal_text(0), "0");
    assert_eq!(smtp2larkapi::text::decimal_text(7), "7");
    assert_eq!(smtp2larkapi::text::decimal_text(10), "10");
    assert_eq!(smtp2larkapi::text::decimal_text(1_234_567_890), "1234567890");
    assert_eq!(smtp2larkapi::text::decimal_text(u64::MAX), "18446744073709551615");
}

#[test]
fn plain_encode_is_reachable_where_sessions_live() {
    assert_eq!(smtp2larkapi::smtp_server::plain_encode("a", "b"), "AGEAYg==");
}
