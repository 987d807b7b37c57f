use localtcp::text::{chars_of, first_word, string_of};

#[test]
fn chars_round_trip() {
    let s = "Größe — ok";
    assert_eq!(string_of(&chars_of(s)), s);
    assert_eq!(chars_of("ab"), vec!['a', 'b']);
}

#[test]
fn first_word_is_the_first_whitespace_separated_word() {
    assert_eq!(first_word("  e3b0c442  node-v1.tar.gz\n"), Some("e3b0c442".to_string()));
    assert_eq!(first_word("single"), Some("single".to_string()));
    assert_eq!(first_word(" \t\r\n "), None);
    assert_eq!(first_word(""), None);
}
