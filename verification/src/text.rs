//! Small verified helpers on strings.

use vstd::prelude::*;
use vstd::string::StringSliceAdditionalSpecFns;
use vstd::utf8::{
    decode_utf8_split, encode_utf8_decode_utf8, encode_utf8_valid_utf8, is_ascii_chars,
};

verus! {

/// The character sequences of a sequence of strings.
pub open spec fn texts(v: Seq<String>) -> Seq<Seq<char>> {
    Seq::new(v.len(), |i: int| v[i]@)
}

/// The character sequence of an optional string.
pub open spec fn opt_text(s: Option<String>) -> Option<Seq<char>> {
    match s {
        Some(t) => Some(t@),
        None => None,
    }
}

/// Whether two strings hold the same characters.
///
/// The comparison runs over the UTF-8 bytes; that equal bytes mean equal
/// characters follows from decoding being the inverse of encoding.
pub fn same_text(a: &str, b: &str) -> (r: bool)
    ensures
        r == (a@ == b@),
{
    let x = a.as_bytes();
    let y = b.as_bytes();
    proof {
        encode_utf8_decode_utf8(a@);
        encode_utf8_decode_utf8(b@);
    }
    if x.len() != y.len() {
        return false;
    }
    let mut i: usize = 0;
    while i < x.len()
        invariant
            i <= x.len(),
            x.len() == y.len(),
            x@ == a.spec_bytes(),
            y@ == b.spec_bytes(),
            forall|k: int| 0 <= k < i ==> x@[k] == y@[k],
        decreases x.len() - i,
    {
        if x[i] != y[i] {
            return false;
        }
        i += 1;
    }
    assert(x@ =~= y@);
    true
}

/// A copy of an optional string.
pub fn clone_opt(s: &Option<String>) -> (r: Option<String>)
    ensures
        opt_text(r) == opt_text(*s),
{
    match s {
        Some(t) => Some(t.clone()),
        None => None,
    }
}

/// A copy of a list of strings.
pub fn clone_all(v: &Vec<String>) -> (r: Vec<String>)
    ensures
        texts(r@) == texts(v@),
{
    let mut r: Vec<String> = Vec::new();
    let mut i: usize = 0;
    while i < v.len()
        invariant
            i <= v.len(),
            r@.len() == i,
            forall|k: int| 0 <= k < i ==> r@[k]@ == v@[k]@,
        decreases v.len() - i,
    {
        r.push(v[i].clone());
        i += 1;
    }
    assert(texts(r@) =~= texts(v@));
    r
}

/// `head` followed by `tail`, as a new string.
pub fn join2(head: &str, tail: &str) -> (r: String)
    ensures
        r@ == head@ + tail@,
{
    let mut r = head.to_owned();
    r.append(tail);
    r
}

/// The character of a decimal digit.
pub open spec fn digit_char(d: nat) -> char
    recommends
        d < 10,
{
    (d + 48) as char
}

/// A number in decimal, without sign or leading zeros.
pub open spec fn decimal(n: nat) -> Seq<char>
    decreases n,
{
    if n < 10 {
        seq![digit_char(n)]
    } else {
        decimal(n / 10).push(digit_char(n % 10))
    }
}

/// Whether a character is one of `0` to `9`.
pub open spec fn is_digit(c: char) -> bool {
    '0' <= c <= '9'
}

/// A text without the one `+` that may stand at its head.
pub open spec fn unsigned_part(s: Seq<char>) -> Seq<char> {
    if s.len() > 0 && s[0] == '+' {
        s.drop_first()
    } else {
        s
    }
}

/// Why a text is no number.
#[derive(Debug, Clone, Copy, PartialEq, Eq, Structural)]
pub enum NumberFault {
    /// The text is empty.
    Empty,
    /// The text holds something other than digits after the sign it may
    /// begin with, or nothing after that sign.
    InvalidDigit,
    /// The number is beyond the limit.
    TooLarge,
}

/// What reading a text of digits from left to right gives, up to a limit:
/// the number, or the first fault that the reading meets. At each character
/// the reading stops with `InvalidDigit` where the character is no digit,
/// and with `TooLarge` where the number read so far, this digit taken in, is
/// beyond the limit.
pub open spec fn scanned(d: Seq<char>, max: nat) -> Result<nat, NumberFault>
    decreases d.len(),
{
    if d.len() == 0 {
        Ok(0)
    } else {
        match scanned(d.drop_last(), max) {
            Err(f) => Err(f),
            Ok(v) => if !is_digit(d.last()) {
                Err(NumberFault::InvalidDigit)
            } else if v * 10 + (d.last() as nat - 48) as nat > max {
                Err(NumberFault::TooLarge)
            } else {
                Ok(v * 10 + (d.last() as nat - 48) as nat)
            },
        }
    }
}

/// The number that a text writes in decimal, up to a limit: an optional `+`,
/// then one digit or more, leading zeros allowed. For any other text, why it
/// is none: the empty text is `Empty`, a sign with nothing behind it is
/// `InvalidDigit`, and any other goes by the first fault from the left.
pub open spec fn parsed_unsigned(s: Seq<char>, max: nat) -> Result<nat, NumberFault> {
    let d = unsigned_part(s);
    if s.len() == 0 {
        Err(NumberFault::Empty)
    } else if d.len() == 0 {
        Err(NumberFault::InvalidDigit)
    } else {
        scanned(d, max)
    }
}

/// The 32-bit number that a text writes in decimal; `None` where it writes
/// none.
pub open spec fn parsed_u32(s: Seq<char>) -> Option<u32> {
    match parsed_unsigned(s, u32::MAX as nat) {
        Ok(v) => Some(v as u32),
        Err(_) => None,
    }
}

/// A fault in words.
pub open spec fn fault_words(f: NumberFault) -> Seq<char> {
    match f {
        NumberFault::Empty => "cannot parse integer from empty string"@,
        NumberFault::InvalidDigit => "invalid digit found in string"@,
        NumberFault::TooLarge => "number too large to fit in target type"@,
    }
}

impl NumberFault {
    /// The fault in words.
    pub fn as_str(&self) -> (r: &'static str)
        ensures
            r@ == fault_words(*self),
    {
        match self {
            NumberFault::Empty => "cannot parse integer from empty string",
            NumberFault::InvalidDigit => "invalid digit found in string",
            NumberFault::TooLarge => "number too large to fit in target type",
        }
    }
}

/// The string of one decimal digit.
fn digit_str(d: u8) -> (r: &'static str)
    requires
        d < 10,
    ensures
        r@ == seq![digit_char(d as nat)],
{
    proof {
        reveal_strlit("0");
        reveal_strlit("1");
        reveal_strlit("2");
        reveal_strlit("3");
        reveal_strlit("4");
        reveal_strlit("5");
        reveal_strlit("6");
        reveal_strlit("7");
        reveal_strlit("8");
        reveal_strlit("9");
    }
    let r = match d {
        0 => "0",
        1 => "1",
        2 => "2",
        3 => "3",
        4 => "4",
        5 => "5",
        6 => "6",
        7 => "7",
        8 => "8",
        _ => "9",
    };
    assert(r@ =~= seq![digit_char(d as nat)]);
    r
}

/// Writes a number in decimal.
pub fn decimal_string(n: u64) -> (r: String)
    ensures
        r@ == decimal(n as nat),
    decreases n,
{
    if n < 10 {
        digit_str(n as u8).to_owned()
    } else {
        let mut r = decimal_string(n / 10);
        r.append(digit_str((n % 10) as u8));
        r
    }
}

/// A fault that the reading has met stays, whatever follows.
pub proof fn lemma_fault_stays(d: Seq<char>, k: int, max: nat)
    requires
        0 <= k <= d.len(),
        scanned(d.subrange(0, k), max) is Err,
    ensures
        scanned(d, max) == scanned(d.subrange(0, k), max),
    decreases d.len() - k,
{
    if k == d.len() {
        assert(d.subrange(0, k) =~= d);
    } else {
        assert(d.subrange(0, k + 1).drop_last() =~= d.subrange(0, k));
        lemma_fault_stays(d, k + 1, max);
    }
}

/// A text that holds something other than a digit is no number.
pub proof fn lemma_stray_character(d: Seq<char>, i: int, max: nat)
    requires
        0 <= i < d.len(),
        !is_digit(d[i]),
    ensures
        scanned(d, max) is Err,
{
    let upto = d.subrange(0, i + 1);
    assert(upto.last() == d[i]);
    lemma_fault_stays(d, i + 1, max);
}

/// Reads a number character by character. This way is good for every
/// text, and slow for a long one.
fn parse_by_chars(text: &str, max: u64) -> (r: Result<u64, NumberFault>)
    requires
        text@.len() > 0,
    ensures
        match r {
            Ok(v) => parsed_unsigned(text@, max as nat) == Ok::<nat, NumberFault>(v as nat),
            Err(f) => parsed_unsigned(text@, max as nat) == Err::<nat, NumberFault>(f),
        },
{
    let ghost s = text@;
    let ghost d = unsigned_part(s);
    let len = text.unicode_len();
    let start: usize = if text.get_char(0) == '+' {
        1
    } else {
        0
    };
    assert(d =~= s.subrange(start as int, s.len() as int));
    if start == len {
        return Err(NumberFault::InvalidDigit);
    }
    let mut acc: u64 = 0;
    let mut i: usize = start;
    assert(d.subrange(0, 0) =~= Seq::<char>::empty());
    while i < len
        invariant
            start <= i <= len,
            len == s.len(),
            s == text@,
            d == s.subrange(start as int, s.len() as int),
            d == unsigned_part(s),
            d.len() > 0,
            scanned(d.subrange(0, i - start), max as nat) == Ok::<nat, NumberFault>(acc as nat),
            acc <= max,
        decreases len - i,
    {
        let c = text.get_char(i);
        let code = c as u32;
        let ghost seen = d.subrange(0, i - start);
        let ghost next = d.subrange(0, i - start + 1);
        assert(d[i - start] == c);
        assert(next.drop_last() =~= seen);
        assert(next.last() == c);
        if code < 48 || code > 57 {
            assert(!is_digit(c));
            proof {
                lemma_fault_stays(d, i - start + 1, max as nat);
            }
            return Err(NumberFault::InvalidDigit);
        }
        assert(is_digit(c));
        let grown: u128 = acc as u128 * 10 + (code - 48) as u128;
        if grown > max as u128 {
            proof {
                lemma_fault_stays(d, i - start + 1, max as nat);
            }
            return Err(NumberFault::TooLarge);
        }
        acc = grown as u64;
        i += 1;
    }
    assert(d.subrange(0, i - start) =~= d);
    Ok(acc)
}

/// What a text reads as where it is a text `head` with a character behind
/// it that is neither a digit nor a sign: the fault of `head` where `head`
/// has one, and `InvalidDigit` where `head` is a number.
pub proof fn lemma_stray_behind(head: Seq<char>, tail: Seq<char>, max: nat)
    requires
        head.len() > 0,
        tail.len() > 0,
        !is_digit(tail[0]),
    ensures
        parsed_unsigned(head + tail, max) == match parsed_unsigned(head, max) {
            Ok(_) => Err::<nat, NumberFault>(NumberFault::InvalidDigit),
            Err(f) => Err::<nat, NumberFault>(f),
        },
{
    let s = head + tail;
    let dh = unsigned_part(head);
    let ds = unsigned_part(s);
    assert(s[0] == head[0]);
    assert(ds =~= dh + tail);
    assert(ds.subrange(0, dh.len() as int) =~= dh);
    let k = dh.len() as int;
    assert(ds[k] == tail[0]);
    if scanned(dh, max) is Err {
        lemma_fault_stays(ds, k, max);
    } else {
        assert(ds.subrange(0, k + 1).drop_last() =~= dh);
        assert(ds.subrange(0, k + 1).last() == tail[0]);
        lemma_fault_stays(ds, k + 1, max);
    }
}

/// Reads a number written in decimal, up to a limit.
pub fn parse_unsigned(text: &str, max: u64) -> (r: Result<u64, NumberFault>)
    ensures
        match r {
            Ok(v) => parsed_unsigned(text@, max as nat) == Ok::<nat, NumberFault>(v as nat),
            Err(f) => parsed_unsigned(text@, max as nat) == Err::<nat, NumberFault>(f),
        },
{
    if text.is_empty() {
        return Err(NumberFault::Empty);
    }
    if text.is_ascii() {
        return parse_ascii(text, max);
    }
    // The text reads as its beginning in ASCII does, but for the character
    // behind that beginning, which is no digit. The beginning is cut off
    // where the bytes say that it ends, and read by its bytes.
    let bytes = text.as_bytes();
    let mut cut: usize = 0;
    while cut < bytes.len() && bytes[cut] < 128u8
        invariant
            cut <= bytes.len(),
        decreases bytes.len() - cut,
    {
        cut += 1;
    }
    if 0 < cut && cut < bytes.len() && text.is_char_boundary(cut) {
        let (head, tail) = text.split_at(cut);
        if head.is_ascii() && !head.is_empty() && !tail.is_empty() {
            let behind = tail.get_char(0) as u32;
            if behind < 48 || behind > 57 {
                proof {
                    encode_utf8_valid_utf8(text@);
                    decode_utf8_split(text.spec_bytes(), cut as int);
                    encode_utf8_decode_utf8(text@);
                    encode_utf8_decode_utf8(head@);
                    encode_utf8_decode_utf8(tail@);
                    assert(text@ =~= head@ + tail@);
                    lemma_stray_behind(head@, tail@, max as nat);
                }
                return match parse_ascii(head, max) {
                    Ok(_) => Err(NumberFault::InvalidDigit),
                    Err(f) => Err(f),
                };
            }
        }
    }
    parse_by_chars(text, max)
}

/// Reads a number by its bytes. This is the way for a text of ASCII, where
/// the place of a character is the place of its byte.
fn parse_ascii(text: &str, max: u64) -> (r: Result<u64, NumberFault>)
    requires
        text@.len() > 0,
        text.is_ascii(),
    ensures
        match r {
            Ok(v) => parsed_unsigned(text@, max as nat) == Ok::<nat, NumberFault>(v as nat),
            Err(f) => parsed_unsigned(text@, max as nat) == Err::<nat, NumberFault>(f),
        },
{
    let ghost s = text@;
    let ghost d = unsigned_part(s);
    let bytes = text.as_bytes();
    proof {
        vstd::string::is_ascii_spec_bytes(text);
        assert(bytes@.len() == s.len());
        assert forall|i: int| 0 <= i < s.len() implies bytes@[i] == #[trigger] s[i] as u8 by {}
    }
    let start: usize = if bytes[0] == 43u8 {
        1
    } else {
        0
    };
    assert(d =~= s.subrange(start as int, s.len() as int));
    if start == bytes.len() {
        return Err(NumberFault::InvalidDigit);
    }
    let mut acc: u64 = 0;
    let mut i: usize = start;
    assert(d.subrange(0, 0) =~= Seq::<char>::empty());
    while i < bytes.len()
        invariant
            start <= i <= bytes.len(),
            bytes@.len() == s.len(),
            s.len() > 0,
            is_ascii_chars(s),
            forall|k: int| 0 <= k < s.len() ==> bytes@[k] == #[trigger] s[k] as u8,
            d == s.subrange(start as int, s.len() as int),
            d.len() > 0,
            s == text@,
            d == unsigned_part(s),
            scanned(d.subrange(0, i - start), max as nat) == Ok::<nat, NumberFault>(acc as nat),
            acc <= max,
        decreases bytes.len() - i,
    {
        let b = bytes[i];
        let ghost c = s[i as int];
        let ghost seen = d.subrange(0, i - start);
        let ghost next = d.subrange(0, i - start + 1);
        assert(d[i - start] == c);
        assert(b == c as u8);
        assert(next.drop_last() =~= seen);
        assert(next.last() == c);
        if b < 48u8 || b > 57u8 {
            assert(!is_digit(c));
            proof {
                lemma_fault_stays(d, i - start + 1, max as nat);
            }
            return Err(NumberFault::InvalidDigit);
        }
        assert(is_digit(c));
        let grown: u128 = acc as u128 * 10 + (b - 48u8) as u128;
        if grown > max as u128 {
            proof {
                lemma_fault_stays(d, i - start + 1, max as nat);
            }
            return Err(NumberFault::TooLarge);
        }
        acc = grown as u64;
        i += 1;
    }
    assert(d.subrange(0, i - start) =~= d);
    Ok(acc)
}

/// Reads a 32-bit number written in decimal.
pub fn parse_u32(text: &str) -> (r: Option<u32>)
    ensures
        r == parsed_u32(text@),
{
    match parse_unsigned(text, 0xffff_ffffu64) {
        Ok(v) => Some(v as u32),
        Err(_) => None,
    }
}

/// A number written in decimal reads back as itself.
pub proof fn lemma_decimal_reads_back(n: u32)
    ensures
        parsed_u32(decimal(n as nat)) == Some(n),
{
    lemma_decimal_scans(n as nat, u32::MAX as nat);
    let s = decimal(n as nat);
    assert(s[0] != '+');
}

/// The decimal form of a number is one digit or more, begins with a digit,
/// and reads as the number under any limit that the number is within.
pub proof fn lemma_decimal_scans(n: nat, max: nat)
    requires
        n <= max,
    ensures
        decimal(n).len() > 0,
        is_digit(decimal(n)[0]),
        scanned(decimal(n), max) == Ok::<nat, NumberFault>(n),
    decreases n,
{
    let s = decimal(n);
    if n < 10 {
        assert(s.drop_last() =~= Seq::<char>::empty());
        assert(scanned(s.drop_last(), max) == Ok::<nat, NumberFault>(0));
    } else {
        lemma_decimal_scans(n / 10, max);
        assert(s.drop_last() =~= decimal(n / 10));
        assert(s.last() == digit_char(n % 10));
        assert(s[0] == decimal(n / 10)[0]);
    }
}

/// A character with an upper-case letter of ASCII brought to lower case.
pub open spec fn ascii_lower(c: char) -> char {
    if 'A' <= c <= 'Z' {
        ((c as u8) + 32) as char
    } else {
        c
    }
}

/// Whether two texts are the same but for the case of their ASCII letters.
pub open spec fn same_ignoring_ascii_case(a: Seq<char>, b: Seq<char>) -> bool {
    a.len() == b.len() && forall|i: int|
        0 <= i < a.len() ==> ascii_lower(#[trigger] a[i]) == ascii_lower(b[i])
}

/// `str::eq_ignore_ascii_case`: whether two strings match where `A` to `Z`
/// count as `a` to `z` and every other character as itself.
#[verifier::external_body]
pub(crate) fn eq_ignore_ascii_case(a: &str, b: &str) -> (r: bool)
    ensures
        r == same_ignoring_ascii_case(a@, b@),
{
    a.eq_ignore_ascii_case(b)
}

} // verus!
