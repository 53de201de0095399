//! Text handling shared by the option types, the parsers and the command line:
//! normalisation of option names, decimal numbers, and splitting on a separator.

use vstd::prelude::*;
use vstd::string::*;

verus! {

/// `String::push` of the standard library: the character is appended at the end.
pub assume_specification[ String::push ](s: &mut String, c: char)
    ensures
        final(s)@ == old(s)@.push(c),
;

/// The lower-case form that `str::to_lowercase` of the standard library gives to a text,
/// by the Unicode rules of the standard library in use.
pub uninterp spec fn unicode_lowercase(s: Seq<char>) -> Seq<char>;

/// `str::to_lowercase` of the standard library. Nothing is claimed of the result but that
/// it is determined by the text.
#[verifier::external_body]
fn to_unicode_lowercase(s: &str) -> (r: String)
    ensures
        r@ == unicode_lowercase(s@),
{
    s.to_lowercase()
}

/// The characters that may separate the words of an option name.
pub open spec fn is_separator(c: char) -> bool {
    c == '-' || c == '_'
}

/// `s` with every `-` and `_` taken out.
pub open spec fn without_separators(s: Seq<char>) -> Seq<char>
    decreases s.len(),
{
    if s.len() == 0 {
        s
    } else if is_separator(s.last()) {
        without_separators(s.drop_last())
    } else {
        without_separators(s.drop_last()).push(s.last())
    }
}

/// A character of the ASCII range.
pub open spec fn is_ascii_char(c: char) -> bool {
    c <= '\u{7f}'
}

/// A text of ASCII characters only.
pub open spec fn is_ascii_text(s: Seq<char>) -> bool {
    forall|i: int| 0 <= i < s.len() ==> is_ascii_char(#[trigger] s[i])
}

/// The lower-case letter of an upper-case ASCII letter; any other character unchanged.
pub open spec fn ascii_lower(c: char) -> char {
    if 'A' <= c && c <= 'Z' {
        ((c as u8) + 32u8) as char
    } else {
        c
    }
}

/// The text with each upper-case ASCII letter replaced by its lower-case letter.
pub open spec fn ascii_lowercase(s: Seq<char>) -> Seq<char> {
    s.map_values(|c: char| ascii_lower(c))
}

/// The lower-case form of a text. For ASCII text it is spelled out here; for any other
/// text it is what the standard library computes.
pub open spec fn lowercase(s: Seq<char>) -> Seq<char> {
    if is_ascii_text(s) {
        ascii_lowercase(s)
    } else {
        unicode_lowercase(s)
    }
}

/// The form under which option names are compared: lower case, without `-` and `_`.
pub open spec fn normalised(s: Seq<char>) -> Seq<char> {
    without_separators(lowercase(s))
}

/// Lowers one ASCII character.
fn ascii_lower_char(c: char) -> (r: char)
    requires
        is_ascii_char(c),
    ensures
        r == ascii_lower(c),
{
    if 'A' <= c && c <= 'Z' {
        let b: u8 = c as u8;
        (b + 32) as char
    } else {
        c
    }
}

/// Whether a text is ASCII throughout.
fn is_ascii_str(s: &str) -> (r: bool)
    ensures
        r == is_ascii_text(s@),
{
    for c in it: s.chars()
        invariant
            it.seq() == s@,
            is_ascii_text(s@.take(it.index() as int)),
    {
        if c > '\u{7f}' {
            assert(s@[it.index() as int] == c);
            return false;
        }
        assert forall|i: int| 0 <= i < it.index() + 1 implies is_ascii_char(
            #[trigger] s@.take(it.index() + 1)[i],
        ) by {
            if i < it.index() {
                assert(s@.take(it.index() as int)[i] == s@[i]);
            }
        }
    }
    assert(s@.take(s@.len() as int) == s@);
    true
}

/// Lowers a text: ASCII text letter by letter, any other by the standard library.
fn lowercase_str(s: &str) -> (r: String)
    ensures
        r@ == lowercase(s@),
{
    if is_ascii_str(s) {
        let mut out = String::new();
        for c in it: s.chars()
            invariant
                it.seq() == s@,
                is_ascii_text(s@),
                out@ == ascii_lowercase(s@.take(it.index() as int)),
        {
            assert(s@[it.index() as int] == c);
            let lower = ascii_lower_char(c);
            out.push(lower);
            assert(out@ == ascii_lowercase(s@.take(it.index() + 1)));
        }
        assert(s@.take(s@.len() as int) == s@);
        out
    } else {
        to_unicode_lowercase(s)
    }
}

/// Takes every `-` and `_` out of a text.
fn strip_separators(s: &str) -> (r: String)
    ensures
        r@ == without_separators(s@),
{
    let mut out = String::new();
    for c in it: s.chars()
        invariant
            it.seq() == s@,
            out@ == without_separators(s@.take(it.index() as int)),
    {
        proof {
            let i = it.index() as int;
            assert(s@.take(i + 1).drop_last() == s@.take(i));
            assert(s@.take(i + 1).last() == c);
        }
        if c != '-' && c != '_' {
            out.push(c);
        }
    }
    assert(s@.take(s@.len() as int) == s@);
    out
}

/// Brings an option name into the form under which names are compared, so that
/// `modern-blue`, `Modern_Blue` and `MODERNBLUE` become the same text.
pub fn normalise_str(s: &str) -> (r: String)
    ensures
        r@ == normalised(s@),
{
    let lower = lowercase_str(s);
    strip_separators(lower.as_str())
}

/// An ASCII decimal digit.
pub open spec fn is_digit(c: char) -> bool {
    '0' <= c && c <= '9'
}

/// The number that a digit denotes.
pub open spec fn digit_value(c: char) -> nat {
    (c as u32 - '0' as u32) as nat
}

/// A text of ASCII decimal digits only.
pub open spec fn all_digits(s: Seq<char>) -> bool {
    forall|i: int| 0 <= i < s.len() ==> is_digit(#[trigger] s[i])
}

/// The number that a sequence of decimal digits denotes; 0 for the empty sequence.
pub open spec fn digits_value(s: Seq<char>) -> nat
    decreases s.len(),
{
    if s.len() == 0 {
        0
    } else {
        digits_value(s.drop_last()) * 10 + digit_value(s.last())
    }
}

/// The digits of an unsigned decimal literal: the text itself, or what follows one
/// leading `+`.
pub open spec fn literal_digits(s: Seq<char>) -> Seq<char> {
    if s.len() > 0 && s[0] == '+' {
        s.skip(1)
    } else {
        s
    }
}

/// The value of `s` read as an unsigned decimal literal no greater than `max`: an
/// optional `+`, then one or more ASCII digits. `None` for any other text.
pub open spec fn parsed_unsigned(s: Seq<char>, max: nat) -> Option<nat> {
    let digits = literal_digits(s);
    if digits.len() > 0 && all_digits(digits) && digits_value(digits) <= max {
        Some(digits_value(digits))
    } else {
        None
    }
}

/// A number only grows as digits are appended.
pub proof fn lemma_digits_value_grows(s: Seq<char>, n: int)
    requires
        0 <= n <= s.len(),
    ensures
        digits_value(s.take(n)) <= digits_value(s),
    decreases s.len() - n,
{
    if n < s.len() {
        assert(s.take(n + 1).drop_last() == s.take(n));
        lemma_digits_value_grows(s, n + 1);
    } else {
        assert(s.take(n) == s);
    }
}

/// Reads an unsigned decimal literal that must not exceed `max`.
pub fn parse_unsigned(s: &str, max: u32) -> (r: Option<u32>)
    ensures
        match r {
            Some(n) => parsed_unsigned(s@, max as nat) == Some(n as nat),
            None => parsed_unsigned(s@, max as nat) is None,
        },
{
    let mut value: u64 = 0;
    let mut seen = false;
    let mut signed = false;
    let ghost mut count: int = 0;
    let ghost digits = literal_digits(s@);
    for c in it: s.chars()
        invariant
            it.seq() == s@,
            digits == literal_digits(s@),
            signed == (s@.len() > 0 && s@[0] == '+' && it.index() > 0),
            count == it.index() - (if signed { 1int } else { 0int }),
            seen == (count > 0),
            all_digits(digits.take(count)),
            value == digits_value(digits.take(count)),
            value <= max,
            count <= digits.len(),
    {
        let ghost i = it.index() as int;
        assert(s@[i] == c);
        if c == '+' && !seen && !signed {
            signed = true;
            assert(digits.take(0) =~= Seq::<char>::empty());
        } else if '0' <= c && c <= '9' {
            let digit: u64 = (c as u32 - '0' as u32) as u64;
            let ghost before = digits.take(count);
            let ghost after = digits.take(count + 1);
            proof {
                assert(digits[count] == c);
                assert(after.drop_last() == before);
                assert(after.last() == c);
                assert forall|k: int| 0 <= k < after.len() implies is_digit(#[trigger] after[k]) by {
                    if k < count {
                        assert(before[k] == after[k]);
                    }
                }
            }
            let next: u64 = value * 10 + digit;
            if next > max as u64 {
                proof {
                    lemma_digits_value_grows(digits, count + 1);
                }
                return None;
            }
            value = next;
            seen = true;
            proof {
                count = count + 1;
            }
        } else {
            proof {
                if signed {
                    assert(digits[count] == c);
                } else if i == 0 {
                    assert(digits[0] == c);
                } else {
                    assert(digits[count] == c);
                }
                assert(!is_digit(digits[count]));
            }
            return None;
        }
    }
    proof {
        assert(count == digits.len());
        assert(digits.take(count) == digits);
    }
    if !seen {
        None
    } else {
        Some(value as u32)
    }
}

/// The digit that denotes a number below ten.
pub open spec fn digit_char(d: nat) -> char
    recommends
        d < 10,
{
    ('0' as u32 + d as u32) as char
}

/// The decimal digits of a number, without leading zeros.
pub open spec fn decimal_digits(n: nat) -> Seq<char>
    decreases n,
{
    if n < 10 {
        seq![digit_char(n)]
    } else {
        decimal_digits(n / 10).push(digit_char(n % 10))
    }
}

/// Appends a number in decimal.
fn push_decimal(out: &mut String, n: u64)
    ensures
        final(out)@ == old(out)@ + decimal_digits(n as nat),
    decreases n,
{
    if n >= 10 {
        push_decimal(out, n / 10);
    }
    let digit: u32 = (n % 10) as u32;
    let c: char = char_of_digit(digit);
    out.push(c);
    proof {
        let before = old(out)@;
        if n < 10 {
            assert(before.push(c) =~= before + seq![c]);
        } else {
            let head = decimal_digits((n / 10) as nat);
            assert((before + head).push(c) =~= before + head.push(c));
        }
    }
}

/// The digit that denotes a number below ten.
fn char_of_digit(d: u32) -> (c: char)
    requires
        d < 10,
    ensures
        c == digit_char(d as nat),
{
    match d {
        0 => '0',
        1 => '1',
        2 => '2',
        3 => '3',
        4 => '4',
        5 => '5',
        6 => '6',
        7 => '7',
        8 => '8',
        _ => '9',
    }
}

/// Writes a number in decimal.
pub fn decimal_string(n: u64) -> (r: String)
    ensures
        r@ == decimal_digits(n as nat),
{
    let mut out = String::new();
    push_decimal(&mut out, n);
    assert(Seq::<char>::empty() + decimal_digits(n as nat) =~= decimal_digits(n as nat));
    out
}

/// The views of a sequence of texts.
pub open spec fn texts(v: Seq<String>) -> Seq<Seq<char>> {
    v.map_values(|s: String| s@)
}

/// The pieces into which the occurrences of `sep` cut `s`: one more piece than there
/// are occurrences, each free of `sep`, empty pieces included.
pub open spec fn split_seq(s: Seq<char>, sep: char) -> Seq<Seq<char>>
    decreases s.len(),
{
    if s.len() == 0 {
        seq![Seq::<char>::empty()]
    } else {
        let init = split_seq(s.drop_last(), sep);
        if s.last() == sep {
            init.push(Seq::<char>::empty())
        } else {
            init.drop_last().push(init.last().push(s.last()))
        }
    }
}

/// Cuts a text at every occurrence of `sep`.
pub fn split_on(s: &str, sep: char) -> (r: Vec<String>)
    ensures
        texts(r@) == split_seq(s@, sep),
{
    let mut pieces: Vec<String> = Vec::new();
    let mut current = String::new();
    assert(texts(pieces@).push(current@) =~= split_seq(s@.take(0), sep));
    for c in it: s.chars()
        invariant
            it.seq() == s@,
            texts(pieces@).push(current@) == split_seq(s@.take(it.index() as int), sep),
    {
        let ghost i = it.index() as int;
        let ghost done = texts(pieces@);
        let ghost open = current@;
        proof {
            assert(s@.take(i + 1).drop_last() == s@.take(i));
            assert(s@.take(i + 1).last() == c);
            assert(done.push(open).drop_last() =~= done);
        }
        if c == sep {
            pieces.push(current);
            current = String::new();
            assert(texts(pieces@) =~= done.push(open));
        } else {
            current.push(c);
        }
    }
    assert(s@.take(s@.len() as int) == s@);
    let ghost done = texts(pieces@);
    let ghost open = current@;
    pieces.push(current);
    assert(texts(pieces@) =~= done.push(open));
    pieces
}

/// `a` followed by `b`, as a new text.
pub fn followed_by(a: &str, b: &str) -> (r: String)
    ensures
        r@ == a@ + b@,
{
    let out = a.to_owned();
    out.concat(b)
}

/// A number in decimal, with `-` before a negative one.
pub open spec fn signed_digits(n: int) -> Seq<char> {
    if n < 0 {
        seq!['-'] + decimal_digits((-n) as nat)
    } else {
        decimal_digits(n as nat)
    }
}

/// Writes a number in decimal, with `-` before a negative one.
pub fn signed_decimal_string(n: i64) -> (r: String)
    ensures
        r@ == signed_digits(n as int),
{
    let mut out = String::new();
    if n < 0 {
        out.push('-');
        let magnitude: u64 = if n == i64::MIN {
            0x8000_0000_0000_0000
        } else {
            (-n) as u64
        };
        push_decimal(&mut out, magnitude);
        assert(out@ =~= seq!['-'] + decimal_digits((-n) as nat));
    } else {
        push_decimal(&mut out, n as u64);
        assert(out@ =~= decimal_digits(n as nat));
    }
    out
}

} // verus!
