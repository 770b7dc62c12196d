use vstd::prelude::*;

use crate::error::{failure, Error};

verus! {

/// `char::is_control`: the Unicode general category `Cc`.
pub open spec fn is_control_char(c: char) -> bool {
    (c as u32) <= 0x1f || (0x7f <= (c as u32) && (c as u32) <= 0x9f)
}

/// Line feed, carriage return and tab.
pub open spec fn is_layout_char(c: char) -> bool {
    c == '\n' || c == '\r' || c == '\t'
}

/// A control character other than line feed, carriage return or tab.
pub open spec fn is_display_control(c: char) -> bool {
    is_control_char(c) && !is_layout_char(c)
}

/// `char::is_whitespace`: the Unicode `White_Space` property.
pub open spec fn is_whitespace_char(c: char) -> bool {
    let v = c as u32;
    ||| 0x9 <= v <= 0xd
    ||| v == 0x20
    ||| v == 0x85
    ||| v == 0xa0
    ||| v == 0x1680
    ||| 0x2000 <= v <= 0x200a
    ||| v == 0x2028
    ||| v == 0x2029
    ||| v == 0x202f
    ||| v == 0x205f
    ||| v == 0x3000
}

/// The text is empty once surrounding whitespace is trimmed.
pub open spec fn is_blank(s: Seq<char>) -> bool {
    forall|i: int| 0 <= i < s.len() ==> is_whitespace_char(#[trigger] s[i])
}

/// The text holds at least one control character.
pub open spec fn has_control(s: Seq<char>) -> bool {
    exists|i: int| 0 <= i < s.len() && is_control_char(#[trigger] s[i])
}

/// The text holds a control character other than line feed, carriage return or tab.
pub open spec fn has_display_control(s: Seq<char>) -> bool {
    exists|i: int| 0 <= i < s.len() && is_display_control(#[trigger] s[i])
}

/// Whether a text field may span several lines.
#[derive(Clone, Copy, Debug, PartialEq, Eq, Structural)]
pub enum TextLayout {
    SingleLine,
    MultiLine,
}

/// Whether a text field may be blank.
#[derive(Clone, Copy, Debug, PartialEq, Eq, Structural)]
pub enum TextPresence {
    Required,
    AllowEmpty,
}

/// The text holds a character that the layout does not allow.
pub open spec fn has_disallowed_control(s: Seq<char>, layout: TextLayout) -> bool {
    match layout {
        TextLayout::SingleLine => has_control(s),
        TextLayout::MultiLine => has_display_control(s),
    }
}

/// Decimal digits of a natural number.
pub open spec fn decimal(n: nat) -> Seq<char>
    decreases n,
{
    if n < 10 {
        seq![digit_char(n)]
    } else {
        decimal(n / 10).push(digit_char(n % 10))
    }
}

pub open spec fn digit_char(d: nat) -> char {
    if d == 0 { '0' }
    else if d == 1 { '1' }
    else if d == 2 { '2' }
    else if d == 3 { '3' }
    else if d == 4 { '4' }
    else if d == 5 { '5' }
    else if d == 6 { '6' }
    else if d == 7 { '7' }
    else if d == 8 { '8' }
    else { '9' }
}

/// What one pass over a text finds.
pub struct TextScan {
    /// Number of characters.
    pub chars: usize,
    pub blank: bool,
    pub control: bool,
    pub display_control: bool,
}

pub fn char_is_control(c: char) -> (r: bool)
    ensures
        r == is_control_char(c),
{
    let v = c as u32;
    v <= 0x1f || (0x7f <= v && v <= 0x9f)
}

pub fn char_is_whitespace(c: char) -> (r: bool)
    ensures
        r == is_whitespace_char(c),
{
    let v = c as u32;
    (0x9 <= v && v <= 0xd) || v == 0x20 || v == 0x85 || v == 0xa0 || v == 0x1680 || (0x2000 <= v
        && v <= 0x200a) || v == 0x2028 || v == 0x2029 || v == 0x202f || v == 0x205f || v == 0x3000
}

/// Each character takes at least one byte of UTF-8.
pub proof fn lemma_chars_fit_bytes(chars: Seq<char>)
    ensures
        chars.len() <= vstd::utf8::encode_utf8(chars).len(),
    decreases chars.len(),
{
    if chars.len() > 0 {
        lemma_chars_fit_bytes(chars.drop_first());
    }
}

/// A text held in memory has at most `usize::MAX` characters.
pub fn text_len_fits(s: &str)
    ensures
        s@.len() <= usize::MAX,
{
    let bytes = s.as_bytes();
    let n = bytes.len();
    proof {
        lemma_chars_fit_bytes(s@);
        assert(bytes@ == vstd::utf8::encode_utf8(s@));
    }
}

/// Counts the characters of a text and looks for whitespace and control characters.
pub fn scan_text(s: &str) -> (r: TextScan)
    ensures
        r.chars == s@.len(),
        r.blank == is_blank(s@),
        r.control == has_control(s@),
        r.display_control == has_display_control(s@),
{
    let mut chars: usize = 0;
    let mut blank = true;
    let mut control = false;
    let mut display_control = false;
    text_len_fits(s);
    for c in it: s.chars()
        invariant
            it.seq() == s@,
            s@.len() <= usize::MAX,
            chars == it.index(),
            blank == (forall|j: int| 0 <= j < it.index() ==> is_whitespace_char(#[trigger] s@[j])),
            control == (exists|j: int| 0 <= j < it.index() && is_control_char(#[trigger] s@[j])),
            display_control == (exists|j: int|
                0 <= j < it.index() && is_display_control(#[trigger] s@[j])),
    {
        let ghost k = it.index();
        assert(c == s@[k as int]);
        chars = chars + 1;
        let is_control = char_is_control(c);
        if !char_is_whitespace(c) {
            blank = false;
        }
        if is_control {
            control = true;
            if c != '\n' && c != '\r' && c != '\t' {
                display_control = true;
            }
        }
        assert(blank == (forall|j: int| 0 <= j < k + 1 ==> is_whitespace_char(#[trigger] s@[j])))
            by {
            if !blank && !is_whitespace_char(c) {
                assert(!is_whitespace_char(s@[k as int]));
            }
        }
        assert(control == (exists|j: int| 0 <= j < k + 1 && is_control_char(#[trigger] s@[j])))
            by {
            if control && !is_control_char(c) {
                let j = choose|j: int| 0 <= j < k + 1 && is_control_char(#[trigger] s@[j]);
                assert(j < k);
            }
            if is_control_char(c) {
                assert(is_control_char(s@[k as int]));
            }
        }
        assert(display_control == (exists|j: int|
            0 <= j < k + 1 && is_display_control(#[trigger] s@[j]))) by {
            if display_control && !is_display_control(c) {
                let j = choose|j: int| 0 <= j < k + 1 && is_display_control(#[trigger] s@[j]);
                assert(j < k);
            }
            if is_display_control(c) {
                assert(is_display_control(s@[k as int]));
            }
        }
    }
    TextScan { chars, blank, control, display_control }
}

/// Joins two texts.
pub(crate) fn concat2(a: &str, b: &str) -> (r: String)
    ensures
        r@ == a@ + b@,
{
    let mut r = String::from_str(a);
    r.append(b);
    r
}

fn digit_text(d: usize) -> (r: &'static str)
    requires
        d < 10,
    ensures
        r@ == seq![digit_char(d as nat)],
{
    let r = match d {
        0 => "0",
        1 => "1",
        2 => "2",
        3 => "3",
        4 => "4",
        5 => "5",
        6 => "6",
        7 => "7",
        8 => "8",
        _ => "9",
    };
    proof {
        reveal_strlit("0");
        reveal_strlit("1");
        reveal_strlit("2");
        reveal_strlit("3");
        reveal_strlit("4");
        reveal_strlit("5");
        reveal_strlit("6");
        reveal_strlit("7");
        reveal_strlit("8");
        reveal_strlit("9");
    }
    assert(r@ =~= seq![digit_char(d as nat)]);
    r
}

/// The decimal digits of `n`, without leading zeros.
pub(crate) fn decimal_text(n: usize) -> (r: String)
    ensures
        r@ == decimal(n as nat),
    decreases n,
{
    if n < 10 {
        String::from_str(digit_text(n))
    } else {
        let mut r = decimal_text(n / 10);
        r.append(digit_text(n % 10));
        r
    }
}

/// Builds a failure whose reason is `a` followed by `b`.
pub fn fail2(a: &str, b: &str) -> (r: Result<(), Error>)
    ensures
        failure(r) == Some(a@ + b@),
{
    Err(Error::InvalidRequest { reason: concat2(a, b) })
}

/// The reason for which `validate_text_limit` rejects a text.
pub open spec fn text_limit_failure(
    field: Seq<char>,
    value: Seq<char>,
    presence: TextPresence,
    layout: TextLayout,
    max_chars: usize,
) -> Option<Seq<char>> {
    if presence == TextPresence::Required && is_blank(value) {
        Some(field + " must not be empty"@)
    } else if value.len() > max_chars {
        Some(field + " must be at most "@ + decimal(max_chars as nat) + " characters"@)
    } else if has_disallowed_control(value, layout) {
        Some(field + " must not contain control characters"@)
    } else {
        None
    }
}

/// Checks a text field against its presence rule, its length limit and its layout.
pub fn validate_text_limit(
    field: &str,
    value: &str,
    presence: TextPresence,
    layout: TextLayout,
    max_chars: usize,
) -> (r: Result<(), Error>)
    ensures
        failure(r) == text_limit_failure(field@, value@, presence, layout, max_chars),
{
    let scan = scan_text(value);
    if presence == TextPresence::Required && scan.blank {
        return fail2(field, " must not be empty");
    }
    if scan.chars > max_chars {
        let limit = decimal_text(max_chars);
        let head = concat2(field, " must be at most ");
        let with_limit = concat2(head.as_str(), limit.as_str());
        let reason = concat2(with_limit.as_str(), " characters");
        return Err(Error::InvalidRequest { reason });
    }
    let bad = match layout {
        TextLayout::SingleLine => scan.control,
        TextLayout::MultiLine => scan.display_control,
    };
    if bad {
        return fail2(field, " must not contain control characters");
    }
    Ok(())
}

/// The reason for which `validate_required_text` rejects a text.
pub open spec fn required_text_failure(field: Seq<char>, value: Seq<char>) -> Option<Seq<char>> {
    if is_blank(value) {
        Some(field + " must not be empty"@)
    } else if has_control(value) {
        Some(field + " must not contain control characters"@)
    } else {
        None
    }
}

/// A text that must not be blank and must not hold control characters.
pub fn validate_required_text(field: &str, value: &str) -> (r: Result<(), Error>)
    ensures
        failure(r) == required_text_failure(field@, value@),
{
    let scan = scan_text(value);
    if scan.blank {
        return fail2(field, " must not be empty");
    }
    if scan.control {
        return fail2(field, " must not contain control characters");
    }
    Ok(())
}

/// Compares two texts.
pub fn str_eq(a: &str, b: &str) -> (r: bool)
    ensures
        r == (a@ == b@),
{
    let x = a.as_bytes();
    let y = b.as_bytes();
    proof {
        vstd::utf8::encode_utf8_decode_utf8(a@);
        vstd::utf8::encode_utf8_decode_utf8(b@);
    }
    if x.len() != y.len() {
        return false;
    }
    let mut i: usize = 0;
    while i < x.len()
        invariant
            x@.len() == y@.len(),
            x@ == vstd::utf8::encode_utf8(a@),
            y@ == vstd::utf8::encode_utf8(b@),
            i <= x@.len(),
            forall|j: int| 0 <= j < i ==> x@[j] == y@[j],
        decreases x@.len() - i,
    {
        if x[i] != y[i] {
            return false;
        }
        i = i + 1;
    }
    assert(x@ =~= y@);
    true
}

} // verus!
