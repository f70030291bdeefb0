use taskwrap::task_args::{multi_word, word, word_space_or_end};

fn s(text: &str) -> String {
    String::from(text)
}

#[test]
fn test_words() {
    let input = "this is a lot of words";
    let expected = vec![s("this"), s("is"), s("a"), s("lot"), s("of"), s("words")];
    let (actual, input) = multi_word(input);
    assert_eq!(expected, actual);
    assert_eq!("", input);
}

#[test]
fn test_words_till_colon() {
    let input = "this is a lot: of words";
    let expected = vec![s("this"), s("is"), s("a")];
    let (actual, input) = multi_word(input);
    assert_eq!(expected, actual);
    assert_eq!("lot: of words", input);
}

#[test]
fn test_space_at_end() {
    let input = "test ";
    let expected = vec![String::from("test")];
    let (actual, input) = multi_word(input);
    assert_eq!(expected, actual);
    assert_eq!("", input);
}

#[test]
fn test_multi_word() {
    let input = "foo bar test project:test foo:bar";
    let expected = vec![String::from("foo"), String::from("bar"), String::from("test")];
    let (actual, input) = multi_word(input);
    assert_eq!(expected, actual);
    assert_eq!("project:test foo:bar", input);
}

#[test]
fn word_takes_letters_digits_and_three_marks() {
    assert_eq!(Some(("a-b_c.d9Z", " x")), word("a-b_c.d9Z x"));
    assert_eq!(Some(("abc", ":def")), word("abc:def"));
    assert_eq!(Some(("abc", "")), word("abc"));
}

#[test]
fn word_needs_one_character() {
    assert_eq!(None, word(""));
    assert_eq!(None, word(" abc"));
    assert_eq!(None, word(":abc"));
}

#[test]
fn word_stops_at_letters_outside_ascii() {
    assert_eq!(Some(("caf", "\u{e9} au lait")), word("caf\u{e9} au lait"));
    assert_eq!(None, word("\u{e9}t\u{e9}"));
}

#[test]
fn word_space_or_end_takes_the_whole_gap() {
    assert_eq!(Some(("one", "two")), word_space_or_end("one \t\r\n two"));
    assert_eq!(Some(("one", "")), word_space_or_end("one"));
    assert_eq!(Some(("one", "")), word_space_or_end("one   "));
}

#[test]
fn word_space_or_end_refuses_a_word_that_runs_into_something_else() {
    assert_eq!(None, word_space_or_end("one:two"));
    assert_eq!(None, word_space_or_end("one,"));
    assert_eq!(None, word_space_or_end(""));
}

#[test]
fn multi_word_of_nothing_is_nothing() {
    let (words, rest) = multi_word("");
    assert!(words.is_empty());
    assert_eq!("", rest);
    let (words, rest) = multi_word("  lead");
    assert!(words.is_empty());
    assert_eq!("  lead", rest);
}

#[test]
fn multi_word_keeps_what_it_cannot_read() {
    let (words, rest) = multi_word("caf\u{e9} noir");
    assert!(words.is_empty());
    assert_eq!("caf\u{e9} noir", rest);
    let (words, rest) = multi_word("un deux\u{a0}trois");
    assert_eq!(vec![s("un")], words);
    assert_eq!("deux\u{a0}trois", rest);
}
