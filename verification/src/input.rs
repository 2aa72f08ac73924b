//! Reading answers from a user: a source of lines, and a handler that trims
//! and parses what the source gives.

use vstd::prelude::*;
use crate::storage::io_error_text;
use crate::text::{fault_words, join2, parse_unsigned, parsed_unsigned, NumberFault};

verus! {

/// Why an answer could not be had.
#[derive(Debug)]
pub enum InputError {
    /// The source failed.
    Io(std::io::Error),
    /// The answer is not of the form asked for. Holds the reason.
    Parse(String),
}

impl InputError {
    /// The error in words.
    pub fn message(&self) -> (r: String)
        ensures
            match *self {
                InputError::Io(_) => "I/O failure: "@.is_prefix_of(r@),
                InputError::Parse(d) => r@ == "Parse failure: "@ + d@,
            },
    {
        match self {
            InputError::Io(e) => {
                let detail = io_error_text(e);
                let r = join2("I/O failure: ", detail.as_str());
                assert(r@.subrange(0, "I/O failure: "@.len() as int) =~= "I/O failure: "@);
                r
            },
            InputError::Parse(d) => join2("Parse failure: ", d.as_str()),
        }
    }
}

/// A source of answers: a terminal, or a list of canned lines.
pub trait InputProvider: Sized {
    /// Whether the source, asked with `prompt` when it is as `before`, may
    /// give `answer` and be as `after` from then on. Each source says for
    /// itself what its answers are; one that says nothing may answer
    /// anything.
    open spec fn may_answer(
        before: Self,
        prompt: Seq<char>,
        after: Self,
        answer: Result<String, InputError>,
    ) -> bool {
        true
    }

    /// Shows the prompt and hands back one line of answer.
    fn read_line(&mut self, prompt: &str) -> (r: Result<String, InputError>)
        ensures
            Self::may_answer(*old(self), prompt@, *final(self), r),
    ;
}

/// Whether `trimmed` is `answer` with the white space at its ends taken off:
/// a line is trimmed, and a failure is the same failure.
pub open spec fn is_trimmed_answer(
    answer: Result<String, InputError>,
    trimmed_one: Result<String, InputError>,
) -> bool {
    match answer {
        Ok(s) => trimmed_one matches Ok(t) && t@ == trimmed(s@),
        Err(e) => trimmed_one == Err::<String, InputError>(e),
    }
}

/// Whether `read` is `answer` read as a `T`: a line that is a `T` gives the
/// value, a line that is none fails with `Parse` and the fault in words, and
/// a failure is the same failure.
pub open spec fn is_parsed_answer<T: FromText>(
    answer: Result<String, InputError>,
    read: Result<T, InputError>,
) -> bool {
    match answer {
        Ok(s) => match T::read_as(s@) {
            Ok(v) => read == Ok::<T, InputError>(v),
            Err(f) => read matches Err(InputError::Parse(reason)) && reason@ == fault_words(f),
        },
        Err(e) => read == Err::<T, InputError>(e),
    }
}

/// Whether a character is white space: one of the twenty-five characters
/// that Unicode gives the property `White_Space`, which are the ones that
/// `char::is_whitespace` takes for white space.
pub open spec fn is_white_space(c: char) -> bool {
    ||| '\u{9}' <= c <= '\u{d}'
    ||| c == ' '
    ||| c == '\u{85}'
    ||| c == '\u{a0}'
    ||| c == '\u{1680}'
    ||| '\u{2000}' <= c <= '\u{200a}'
    ||| c == '\u{2028}'
    ||| c == '\u{2029}'
    ||| c == '\u{202f}'
    ||| c == '\u{205f}'
    ||| c == '\u{3000}'
}

/// A text without the white space at its head.
pub open spec fn trim_start(s: Seq<char>) -> Seq<char>
    decreases s.len(),
{
    if s.len() > 0 && is_white_space(s[0]) {
        trim_start(s.drop_first())
    } else {
        s
    }
}

/// A text without the white space at its end.
pub open spec fn trim_end(s: Seq<char>) -> Seq<char>
    decreases s.len(),
{
    if s.len() > 0 && is_white_space(s.last()) {
        trim_end(s.drop_last())
    } else {
        s
    }
}

/// A text without the white space at its head and at its end.
pub open spec fn trimmed(s: Seq<char>) -> Seq<char> {
    trim_end(trim_start(s))
}

/// A text of white space alone trims to the empty text.
pub proof fn law_blanks_trim_to_nothing(s: Seq<char>)
    requires
        forall|i: int| 0 <= i < s.len() ==> is_white_space(#[trigger] s[i]),
    ensures
        trimmed(s) == Seq::<char>::empty(),
{
    lemma_trim_start_of_blanks(s);
    assert(trim_start(s) =~= Seq::<char>::empty());
}

/// A text of white space alone has nothing left once its head is trimmed.
proof fn lemma_trim_start_of_blanks(s: Seq<char>)
    requires
        forall|i: int| 0 <= i < s.len() ==> is_white_space(#[trigger] s[i]),
    ensures
        trim_start(s).len() == 0,
    decreases s.len(),
{
    if s.len() > 0 {
        assert(is_white_space(s[0]));
        let rest = s.drop_first();
        assert forall|i: int| 0 <= i < rest.len() implies is_white_space(#[trigger] rest[i]) by {
            assert(rest[i] == s[i + 1]);
        }
        lemma_trim_start_of_blanks(rest);
    }
}

/// What is trimmed neither begins nor ends with white space, so that
/// trimming it again changes nothing.
pub proof fn law_trimmed_is_trimmed(s: Seq<char>)
    ensures
        trimmed(s).len() > 0 ==> !is_white_space(trimmed(s)[0]) && !is_white_space(
            trimmed(s).last(),
        ),
        trimmed(trimmed(s)) == trimmed(s),
        trimmed(s).len() <= s.len(),
{
    lemma_trim_start(s);
    lemma_trim_end(trim_start(s));
}

/// What `trim_start` gives: an end of the text that does not begin with
/// white space.
proof fn lemma_trim_start(s: Seq<char>)
    ensures
        trim_start(s).len() <= s.len(),
        trim_start(s).len() > 0 ==> !is_white_space(trim_start(s)[0]),
        trim_start(s).len() > 0 ==> trim_start(s).last() == s.last(),
    decreases s.len(),
{
    if s.len() > 0 && is_white_space(s[0]) {
        lemma_trim_start(s.drop_first());
    }
}

/// What `trim_end` gives: a beginning of the text that does not end with
/// white space.
proof fn lemma_trim_end(s: Seq<char>)
    ensures
        trim_end(s).len() <= s.len(),
        trim_end(s).len() > 0 ==> !is_white_space(trim_end(s).last()),
        trim_end(s).len() > 0 ==> trim_end(s)[0] == s[0],
    decreases s.len(),
{
    if s.len() > 0 && is_white_space(s.last()) {
        lemma_trim_end(s.drop_last());
    }
}

/// `str::trim`: the text without the white space at its head and at its
/// end, where white space is what Unicode gives the property `White_Space`.
#[verifier::external_body]
fn trim(s: &str) -> (r: &str)
    ensures
        r@ == trimmed(s@),
{
    s.trim()
}

/// What can be read from an answer.
pub trait FromText: Sized {
    /// What a text reads as: the value, or why it is none.
    spec fn read_as(text: Seq<char>) -> Result<Self, NumberFault>;

    /// Reads a value from a text, or says why the text is none.
    fn from_text(text: &str) -> (r: Result<Self, NumberFault>)
        ensures
            r == Self::read_as(text@),
    ;
}

impl FromText for u32 {
    open spec fn read_as(text: Seq<char>) -> Result<u32, NumberFault> {
        match parsed_unsigned(text, u32::MAX as nat) {
            Ok(v) => Ok(v as u32),
            Err(f) => Err(f),
        }
    }

    fn from_text(text: &str) -> (r: Result<u32, NumberFault>) {
        match parse_unsigned(text, 0xffff_ffffu64) {
            Ok(v) => Ok(v as u32),
            Err(f) => Err(f),
        }
    }
}

impl FromText for u64 {
    open spec fn read_as(text: Seq<char>) -> Result<u64, NumberFault> {
        match parsed_unsigned(text, u64::MAX as nat) {
            Ok(v) => Ok(v as u64),
            Err(f) => Err(f),
        }
    }

    fn from_text(text: &str) -> (r: Result<u64, NumberFault>) {
        parse_unsigned(text, 0xffff_ffff_ffff_ffffu64)
    }
}

impl FromText for usize {
    open spec fn read_as(text: Seq<char>) -> Result<usize, NumberFault> {
        match parsed_unsigned(text, usize::MAX as nat) {
            Ok(v) => Ok(v as usize),
            Err(f) => Err(f),
        }
    }

    fn from_text(text: &str) -> (r: Result<usize, NumberFault>) {
        match parse_unsigned(text, usize::MAX as u64) {
            Ok(v) => Ok(v as usize),
            Err(f) => Err(f),
        }
    }
}

/// An answer read as a `T`. A failure of the source is handed on as it is;
/// an answer that is no `T` fails with `Parse`, which holds the fault in
/// words.
pub fn parsed_answer<T: FromText>(answer: Result<String, InputError>) -> (r: Result<
    T,
    InputError,
>)
    ensures
        is_parsed_answer(answer, r),
{
    match answer {
        Ok(s) => match T::from_text(s.as_str()) {
            Ok(v) => Ok(v),
            Err(f) => Err(InputError::Parse(f.as_str().to_owned())),
        },
        Err(e) => Err(e),
    }
}

/// An answer with the white space at its ends taken off; a failure is
/// handed on as it is.
pub fn trimmed_answer(answer: Result<String, InputError>) -> (r: Result<String, InputError>)
    ensures
        is_trimmed_answer(answer, r),
{
    match answer {
        Ok(s) => Ok(trim(s.as_str()).to_owned()),
        Err(e) => Err(e),
    }
}

/// Asks a source of answers, and brings the answers into form.
pub struct InputHandler<I: InputProvider> {
    provider: I,
}

impl<I: InputProvider> InputHandler<I> {
    /// The source that the handler asks.
    pub closed spec fn source(&self) -> I {
        self.provider
    }

    /// A handler that asks the given source.
    pub fn new(provider: I) -> (r: Self)
        ensures
            r.source() == provider,
    {
        Self { provider }
    }

    /// One line of answer, as the source gives it: the source is asked
    /// once, with this prompt, and what it answers is handed on unchanged.
    pub fn get_string(&mut self, prompt: &str) -> (r: Result<String, InputError>)
        ensures
            I::may_answer(old(self).source(), prompt@, final(self).source(), r),
    {
        self.provider.read_line(prompt)
    }

    /// One line of answer, without the white space at its ends: the source
    /// is asked once, with this prompt, and its answer is trimmed. A failure
    /// of the source is handed on as it is. An answer that comes back is
    /// trimmed, whatever the source gave.
    pub fn get_string_trimmed(&mut self, prompt: &str) -> (r: Result<String, InputError>)
        ensures
            exists|answer: Result<String, InputError>|
                #[trigger] I::may_answer(
                    old(self).source(),
                    prompt@,
                    final(self).source(),
                    answer,
                ) && is_trimmed_answer(answer, r),
            r matches Ok(t) ==> trimmed(t@) == t@,
    {
        let answer = self.get_string(prompt);
        let ghost given = answer;
        proof {
            if let Ok(s) = &answer {
                law_trimmed_is_trimmed(s@);
            }
        }
        let r = trimmed_answer(answer);
        assert(I::may_answer(old(self).source(), prompt@, self.source(), given)
            && is_trimmed_answer(given, r));
        r
    }

    /// One line of answer, read as a `T` just as it came: white space at
    /// its ends is part of it. The source is asked once, with this prompt.
    /// Where it fails, so does this, with the source's error; where the line
    /// is no `T`, with `Parse`.
    pub fn parse<T: FromText>(&mut self, prompt: &str) -> (r: Result<T, InputError>)
        ensures
            exists|answer: Result<String, InputError>|
                #[trigger] I::may_answer(
                    old(self).source(),
                    prompt@,
                    final(self).source(),
                    answer,
                ) && is_parsed_answer(answer, r),
    {
        let answer = self.get_string(prompt);
        let ghost given = answer;
        let r = parsed_answer(answer);
        assert(I::may_answer(old(self).source(), prompt@, self.source(), given)
            && is_parsed_answer(given, r));
        r
    }

    /// One line of answer, read as a `T` after the white space at its ends
    /// was taken off. The source is asked once, with this prompt. Where it
    /// fails, so does this, with the source's error; where the trimmed line
    /// is no `T`, with `Parse`.
    pub fn parse_trimmed<T: FromText>(&mut self, prompt: &str) -> (r: Result<T, InputError>)
        ensures
            exists|answer: Result<String, InputError>, cut: Result<String, InputError>|
                #[trigger] I::may_answer(
                    old(self).source(),
                    prompt@,
                    final(self).source(),
                    answer,
                ) && #[trigger] is_trimmed_answer(answer, cut) && is_parsed_answer(cut, r),
    {
        let cut = self.get_string_trimmed(prompt);
        let ghost given = choose|answer: Result<String, InputError>|
            #[trigger] I::may_answer(old(self).source(), prompt@, self.source(), answer)
                && is_trimmed_answer(answer, cut);
        let ghost trimmed_one = cut;
        let r = parsed_answer(cut);
        assert(I::may_answer(old(self).source(), prompt@, self.source(), given)
            && is_trimmed_answer(given, trimmed_one) && is_parsed_answer(trimmed_one, r));
        r
    }
}

} // verus!
