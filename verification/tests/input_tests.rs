use kars::input::{InputError, InputHandler, InputProvider};
use std::collections::VecDeque;
use std::io;

/// Hands out canned lines, one for each question.
struct MockProvider {
    responses: VecDeque<String>,
}

impl InputProvider for MockProvider {
    fn read_line(&mut self, _p: &str) -> Result<String, InputError> {
        match self.responses.pop_front() {
            Some(line) => Ok(line),
            None => Err(InputError::Io(io::Error::new(
                io::ErrorKind::UnexpectedEof,
                "No more responses",
            ))),
        }
    }
}

#[test]
fn test_parse_trimmed_success() {
    let responses = VecDeque::from(vec![" 42 ".to_string()]);
    let mock = MockProvider { responses };
    let mut handler = InputHandler::new(mock);
    assert_eq!(handler.parse_trimmed::<u32>("test").unwrap(), 42);
}

#[test]
fn test_parse_raw_fails_with_spaces() {
    let responses = VecDeque::from(vec![" 42 ".to_string()]);
    let mock = MockProvider { responses };
    let mut handler = InputHandler::new(mock);
    let result = handler.parse::<u32>("test");
    // A raw parse does not trim, so the blanks make the number invalid.
    assert!(matches!(result, Err(InputError::Parse(_))));
}

#[test]
fn test_trim_empty_input() {
    let responses = VecDeque::from(vec!["   ".to_string()]);
    let mock = MockProvider { responses };
    let mut handler = InputHandler::new(mock);
    let result = handler.get_string_trimmed("test").unwrap();
    assert!(result.is_empty());
}

fn handler(lines: &[&str]) -> InputHandler<MockProvider> {
    let responses = lines.iter().map(|l| l.to_string()).collect();
    InputHandler::new(MockProvider { responses })
}

#[test]
fn get_string_hands_the_line_on_as_it_came() {
    let mut h = handler(&["  two words \t"]);
    assert_eq!(h.get_string("q").unwrap(), "  two words \t");
    assert!(matches!(h.get_string("q"), Err(InputError::Io(_))));
}

#[test]
fn trimming_takes_white_space_off_both_ends_only() {
    let mut h = handler(&["  two  words \t\r\n", "\u{a0}\u{3000}x\u{2003}", "none"]);
    assert_eq!(h.get_string_trimmed("q").unwrap(), "two  words");
    assert_eq!(h.get_string_trimmed("q").unwrap(), "x");
    assert_eq!(h.get_string_trimmed("q").unwrap(), "none");
    assert!(matches!(h.get_string_trimmed("q"), Err(InputError::Io(_))));
}

#[test]
fn trimmed_answer_keeps_a_failure() {
    let failed = kars::input::trimmed_answer(Err(InputError::Parse("p".to_string())));
    assert!(matches!(failed, Err(InputError::Parse(p)) if p == "p"));
    assert_eq!(kars::input::trimmed_answer(Ok(" a ".to_string())).unwrap(), "a");
}

#[test]
fn parse_reads_numbers_of_several_widths() {
    let mut h = handler(&["4294967295", "4294967296", "18446744073709551615", "12", ""]);
    assert_eq!(h.parse::<u32>("q").unwrap(), u32::MAX);
    assert!(matches!(
        h.parse::<u32>("q"),
        Err(InputError::Parse(m)) if m == "number too large to fit in target type"
    ));
    assert_eq!(h.parse::<u64>("q").unwrap(), u64::MAX);
    assert_eq!(h.parse_trimmed::<usize>("q").unwrap(), 12);
    assert!(matches!(
        h.parse_trimmed::<usize>("q"),
        Err(InputError::Parse(m)) if m == "cannot parse integer from empty string"
    ));
    assert!(matches!(h.parse::<u32>("q"), Err(InputError::Io(_))));
}

#[test]
fn input_errors_in_words() {
    assert_eq!(InputError::Parse("bad".to_string()).message(), "Parse failure: bad");
    let e = InputError::Io(io::Error::new(io::ErrorKind::UnexpectedEof, "No more responses"));
    assert_eq!(e.message(), "I/O failure: No more responses");
}

#[test]
fn every_white_space_character_is_trimmed() {
    let blanks = "\u{9}\u{a}\u{b}\u{c}\u{d} \u{85}\u{a0}\u{1680}\u{2000}\u{2001}\u{2002}\u{2003}\u{2004}\u{2005}\u{2006}\u{2007}\u{2008}\u{2009}\u{200a}\u{2028}\u{2029}\u{202f}\u{205f}\u{3000}";
    assert_eq!(blanks.chars().count(), 25);
    let mut h = handler(&[blanks, "\u{200b}x\u{feff}", "\u{1c}y\u{1f}"]);
    assert_eq!(h.get_string_trimmed("q").unwrap(), "");
    assert_eq!(h.get_string_trimmed("q").unwrap(), "\u{200b}x\u{feff}");
    assert_eq!(h.get_string_trimmed("q").unwrap(), "\u{1c}y\u{1f}");
}
