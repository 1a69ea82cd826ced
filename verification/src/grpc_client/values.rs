use palette::Srgb;
use vstd::prelude::*;

use crate::text::{i64_from_text, owned, parse_i64, slice_chars, str_eq};

verus! {

/// The types of values that an input takes.
#[derive(Clone, Copy, Debug, PartialEq, Eq, Hash, Structural)]
pub enum ValueType {
    Trigger,
    Bool,
    Integer,
    Decimal,
    Color,
    IntegerRange,
    DecimalRange,
    ColorRange,
}

/// How a value type is written for people.
pub open spec fn value_type_text(t: ValueType) -> Seq<char> {
    match t {
        ValueType::Trigger => "trigger"@,
        ValueType::Bool => "bool"@,
        ValueType::Integer => "integer"@,
        ValueType::Decimal => "decimal"@,
        ValueType::Color => "color"@,
        ValueType::IntegerRange => "range<integer>"@,
        ValueType::DecimalRange => "range<decimal>"@,
        ValueType::ColorRange => "range<color>"@,
    }
}

impl ValueType {
    /// The name of the value type as it is written for people.
    pub fn name(&self) -> (res: &'static str)
        ensures
            res@ == value_type_text(*self),
    {
        match self {
            ValueType::Trigger => "trigger",
            ValueType::Bool => "bool",
            ValueType::Integer => "integer",
            ValueType::Decimal => "decimal",
            ValueType::Color => "color",
            ValueType::IntegerRange => "range<integer>",
            ValueType::DecimalRange => "range<decimal>",
            ValueType::ColorRange => "range<color>",
        }
    }
}

/// Different value types are written differently.
pub proof fn lemma_value_type_names_differ(t: ValueType, u: ValueType)
    ensures
        t != u ==> value_type_text(t) != value_type_text(u),
{
    reveal_strlit("trigger");
    reveal_strlit("bool");
    reveal_strlit("integer");
    reveal_strlit("decimal");
    reveal_strlit("color");
    reveal_strlit("range<integer>");
    reveal_strlit("range<decimal>");
    reveal_strlit("range<color>");
    // The names differ in length, but for those of equal length, which
    // differ in their first letter or, for the two number ranges, in the
    // letter after `<`.
    assert("trigger"@.len() == 7 && "integer"@.len() == 7 && "decimal"@.len() == 7);
    assert("bool"@.len() == 4 && "color"@.len() == 5 && "range<color>"@.len() == 12);
    assert("range<integer>"@.len() == 14 && "range<decimal>"@.len() == 14);
    assert("trigger"@[0] == 't' && "integer"@[0] == 'i' && "decimal"@[0] == 'd');
    assert("range<integer>"@[6] == 'i' && "range<decimal>"@[6] == 'd');
}

/// The values of decimal inputs (`f32` numbers, which are handled where
/// floating point can be).
pub struct Decimal;

/// The values of color inputs (three `f32` channels, which are handled
/// where floating point can be).
pub struct Color;

/// A range between two values, written `a..b`, or a single value `a` that
/// stands for `a..a`.
#[derive(Clone, Copy, Debug, PartialEq, Eq, Structural)]
pub struct RangeValue<V> {
    pub a: V,
    pub b: V,
}

/// Why a text is not a value of the expected type.
#[derive(Clone, Copy, Debug, PartialEq, Eq, Structural)]
pub enum ParseValueError {
    InvalidBool,
    InvalidInteger,
    InvalidColor,
}

/// The position of the first `..` in `s` at or after `from`.
pub open spec fn first_dots_from(s: Seq<char>, from: int) -> Option<int>
    decreases s.len() - from,
{
    if from < 0 || from + 1 >= s.len() {
        None
    } else if s[from] == '.' && s[from + 1] == '.' {
        Some(from)
    } else {
        first_dots_from(s, from + 1)
    }
}

/// What `str::split_once("..")` makes of `s`: the text before the first `..`
/// and the text after it.
pub open spec fn split_dots(s: Seq<char>) -> Option<(Seq<char>, Seq<char>)> {
    match first_dots_from(s, 0) {
        Some(i) => Some((s.subrange(0, i), s.subrange(i + 2, s.len() as int))),
        None => None,
    }
}

/// Scanning a text that begins with `p`, which holds no `.`, then `..`,
/// finds those dots from any position inside `p`.
proof fn lemma_dots_after_dotless(p: Seq<char>, q: Seq<char>, from: int)
    requires
        0 <= from <= p.len(),
        forall|i: int| 0 <= i < p.len() ==> p[i] != '.',
    ensures
        first_dots_from(p + seq!['.', '.'] + q, from) == Some(p.len() as int),
    decreases p.len() - from,
{
    let s = p + seq!['.', '.'] + q;
    if from < p.len() {
        assert(s[from] == p[from]);
        lemma_dots_after_dotless(p, q, from + 1);
    } else {
        assert(s[from] == '.' && s[from + 1] == '.');
    }
}

/// A text without `.`, then `..`, then more is cut at those dots.
pub proof fn lemma_split_after_dotless(p: Seq<char>, q: Seq<char>)
    requires
        forall|i: int| 0 <= i < p.len() ==> p[i] != '.',
    ensures
        split_dots(p + ".."@ + q) == Some((p, q)),
{
    reveal_strlit("..");
    assert(".."@ =~= seq!['.', '.']);
    lemma_dots_after_dotless(p, q, 0);
    let s = p + seq!['.', '.'] + q;
    assert(s.subrange(0, p.len() as int) =~= p);
    assert(s.subrange(p.len() as int + 2, s.len() as int) =~= q);
}

/// The integer range that a text stands for.
pub open spec fn integer_range_from_text(s: Seq<char>) -> Option<RangeValue<i64>> {
    match split_dots(s) {
        Some((a, b)) => match (i64_from_text(a), i64_from_text(b)) {
            (Some(a), Some(b)) => Some(RangeValue { a, b }),
            _ => None,
        },
        None => match i64_from_text(s) {
            Some(v) => Some(RangeValue { a: v, b: v }),
            None => None,
        },
    }
}

/// Finds the first `..` in `s`.
pub fn find_dots(s: &str) -> (res: Option<usize>)
    ensures
        res matches Some(i) ==> first_dots_from(s@, 0) == Some(i as int),
        res matches Some(i) ==> i + 2 <= s@.len(),
        res is None ==> first_dots_from(s@, 0) is None,
{
    let n = s.unicode_len();
    if n < 2 {
        return None;
    }
    let mut i: usize = 0;
    while i < n - 1
        invariant
            n == s@.len(),
            n >= 2,
            i <= n - 1,
            first_dots_from(s@, 0) == first_dots_from(s@, i as int),
        decreases n - i,
    {
        if s.get_char(i) == '.' && s.get_char(i + 1) == '.' {
            return Some(i);
        }
        i = i + 1;
    }
    None
}

impl RangeValue<i64> {
    /// Reads an integer range: `a..b`, or a single integer.
    pub fn from_str(s: &str) -> (res: Result<RangeValue<i64>, ParseValueError>)
        ensures
            match integer_range_from_text(s@) {
                Some(r) => res == Ok::<RangeValue<i64>, ParseValueError>(r),
                None => res == Err::<RangeValue<i64>, ParseValueError>(ParseValueError::InvalidInteger),
            },
    {
        match find_dots(s) {
            Some(i) => {
                let n = s.unicode_len();
                let a = slice_chars(s, 0, i);
                let b = slice_chars(s, i + 2, n);
                match (parse_i64(a.as_str()), parse_i64(b.as_str())) {
                    (Some(a), Some(b)) => Ok(RangeValue { a, b }),
                    _ => Err(ParseValueError::InvalidInteger),
                }
            },
            None => match parse_i64(s) {
                Some(v) => Ok(RangeValue { a: v, b: v }),
                None => Err(ParseValueError::InvalidInteger),
            },
        }
    }
}

/// What `bool::from_str` makes of a string: exactly `true` or `false`.
pub open spec fn bool_from_text(s: Seq<char>) -> Option<bool> {
    if s == "true"@ {
        Some(true)
    } else if s == "false"@ {
        Some(false)
    } else {
        None
    }
}

/// Reads `true` or `false`.
pub fn parse_bool(s: &str) -> (res: Option<bool>)
    ensures
        res == bool_from_text(s@),
{
    if str_eq(s, "true") {
        Some(true)
    } else if str_eq(s, "false") {
        Some(false)
    } else {
        None
    }
}

/// The two ends that a range is written with: the texts around the first
/// `..`, or the whole text for both ends where there is none.
pub open spec fn range_ends(s: Seq<char>) -> (Seq<char>, Seq<char>) {
    match split_dots(s) {
        Some(parts) => parts,
        None => (s, s),
    }
}

/// Cuts a range text into the texts of its two ends.
pub fn split_range(s: &str) -> (res: (String, String))
    ensures
        res.0@ == range_ends(s@).0,
        res.1@ == range_ends(s@).1,
{
    match find_dots(s) {
        Some(i) => {
            let n = s.unicode_len();
            (slice_chars(s, 0, i), slice_chars(s, i + 2, n))
        },
        None => (owned(s), owned(s)),
    }
}

/// The value of a hexadecimal digit, either case.
pub open spec fn hex_digit(c: char) -> Option<u8> {
    if '0' <= c <= '9' {
        Some((c as int - '0' as int) as u8)
    } else if 'a' <= c <= 'f' {
        Some((c as int - 'a' as int + 10) as u8)
    } else if 'A' <= c <= 'F' {
        Some((c as int - 'A' as int + 10) as u8)
    } else {
        None
    }
}

/// A hex color code without its optional leading `#`.
pub open spec fn hex_body(s: Seq<char>) -> Seq<char> {
    if s.len() > 0 && s[0] == '#' {
        s.drop_first()
    } else {
        s
    }
}

/// What `u8::from_str_radix(_, 16)` reads from two characters: two
/// hexadecimal digits, or a `+` sign and one digit.
pub open spec fn hex_pair(a: char, b: char) -> Option<u8> {
    match (hex_digit(a), hex_digit(b)) {
        (Some(x), Some(y)) => Some((16 * x + y) as u8),
        (None, Some(y)) => if a == '+' {
            Some(y)
        } else {
            None
        },
        _ => None,
    }
}

/// The channels of a hex color code: three digits, each standing for that
/// digit twice (`f` for `ff`), or three pairs of characters, each read as
/// [`hex_pair`] says; the leading `#` is optional.
pub open spec fn hex_color_from_text(s: Seq<char>) -> Option<(u8, u8, u8)> {
    let body = hex_body(s);
    if body.len() == 3 {
        match (hex_digit(body[0]), hex_digit(body[1]), hex_digit(body[2])) {
            (Some(r), Some(g), Some(b)) => Some(((17 * r) as u8, (17 * g) as u8, (17 * b) as u8)),
            _ => None,
        }
    } else if body.len() == 6 {
        match (hex_pair(body[0], body[1]), hex_pair(body[2], body[3]), hex_pair(body[4], body[5])) {
            (Some(r), Some(g), Some(b)) => Some((r, g, b)),
            _ => None,
        }
    } else {
        None
    }
}

/// `Srgb<u8>::from_str` of palette: strips one leading `#`, refuses any
/// length but three or six, and reads each channel with
/// `u8::from_str_radix(_, 16)`: one digit times 17, or two characters as
/// [`hex_pair`] says. The text must be ASCII: the source slices it by bytes
/// and panics inside a multi-byte character.
#[verifier::external_body]
fn parse_hex_color(s: &str) -> (res: Option<(u8, u8, u8)>)
    requires
        vstd::utf8::is_ascii_chars(s@),
    ensures
        res == hex_color_from_text(s@),
{
    match s.parse::<Srgb<u8>>() {
        Ok(c) => Some((c.red, c.green, c.blue)),
        Err(_) => None,
    }
}

/// The color that a text gives: a hex color code in ASCII.
pub open spec fn color_from_text(s: Seq<char>) -> Option<(u8, u8, u8)> {
    if vstd::utf8::is_ascii_chars(s) {
        hex_color_from_text(s)
    } else {
        None
    }
}

/// Reads a hex color code.
pub fn parse_color(s: &str) -> (res: Option<(u8, u8, u8)>)
    ensures
        res == color_from_text(s@),
{
    if s.is_ascii() {
        parse_hex_color(s)
    } else {
        None
    }
}

/// A value read from text. Colors are the bytes of their channels, and
/// decimals are still their text: both become floating point where the
/// value is handed on.
#[derive(Debug, PartialEq)]
pub enum TextValue {
    Trigger,
    Boolean(bool),
    Integer(i64),
    Decimal(String),
    Color((u8, u8, u8)),
    IntegerRange(i64, i64),
    DecimalRange(String, String),
    ColorRange((u8, u8, u8), (u8, u8, u8)),
}

/// What reading `text` for an input of type `t` gives: `true` or `false`
/// for a boolean, a decimal integer, a hex color code, and for a range the
/// two ends around `..` or one value for both. A trigger takes no value and
/// ignores the text; decimals stay text.
pub open spec fn reads_as(t: ValueType, text: Seq<char>, res: Result<TextValue, ParseValueError>) -> bool {
    match t {
        ValueType::Trigger => res matches Ok(TextValue::Trigger),
        ValueType::Bool => match bool_from_text(text) {
            Some(b) => res == Ok::<TextValue, ParseValueError>(TextValue::Boolean(b)),
            None => res == Err::<TextValue, ParseValueError>(ParseValueError::InvalidBool),
        },
        ValueType::Integer => match i64_from_text(text) {
            Some(n) => res == Ok::<TextValue, ParseValueError>(TextValue::Integer(n)),
            None => res == Err::<TextValue, ParseValueError>(ParseValueError::InvalidInteger),
        },
        ValueType::Decimal => res matches Ok(TextValue::Decimal(d)) && d@ == text,
        ValueType::Color => match color_from_text(text) {
            Some(c) => res == Ok::<TextValue, ParseValueError>(TextValue::Color(c)),
            None => res == Err::<TextValue, ParseValueError>(ParseValueError::InvalidColor),
        },
        ValueType::IntegerRange => match integer_range_from_text(text) {
            Some(r) => res == Ok::<TextValue, ParseValueError>(TextValue::IntegerRange(r.a, r.b)),
            None => res == Err::<TextValue, ParseValueError>(ParseValueError::InvalidInteger),
        },
        ValueType::DecimalRange => res matches Ok(TextValue::DecimalRange(a, b)) && a@ == range_ends(text).0
            && b@ == range_ends(text).1,
        ValueType::ColorRange => match (color_from_text(range_ends(text).0), color_from_text(range_ends(text).1)) {
            (Some(a), Some(b)) => res == Ok::<TextValue, ParseValueError>(TextValue::ColorRange(a, b)),
            _ => res == Err::<TextValue, ParseValueError>(ParseValueError::InvalidColor),
        },
    }
}

/// Reads the text given for an input of type `t`.
pub fn parse_value(t: ValueType, text: &str) -> (res: Result<TextValue, ParseValueError>)
    ensures
        reads_as(t, text@, res),
{
    match t {
        ValueType::Trigger => Ok(TextValue::Trigger),
        ValueType::Bool => match parse_bool(text) {
            Some(b) => Ok(TextValue::Boolean(b)),
            None => Err(ParseValueError::InvalidBool),
        },
        ValueType::Integer => match parse_i64(text) {
            Some(n) => Ok(TextValue::Integer(n)),
            None => Err(ParseValueError::InvalidInteger),
        },
        ValueType::Decimal => Ok(TextValue::Decimal(owned(text))),
        ValueType::Color => match parse_color(text) {
            Some(c) => Ok(TextValue::Color(c)),
            None => Err(ParseValueError::InvalidColor),
        },
        ValueType::IntegerRange => match RangeValue::<i64>::from_str(text) {
            Ok(r) => Ok(TextValue::IntegerRange(r.a, r.b)),
            Err(e) => Err(e),
        },
        ValueType::DecimalRange => {
            let (a, b) = split_range(text);
            Ok(TextValue::DecimalRange(a, b))
        },
        ValueType::ColorRange => {
            let (a, b) = split_range(text);
            match (parse_color(a.as_str()), parse_color(b.as_str())) {
                (Some(a), Some(b)) => Ok(TextValue::ColorRange(a, b)),
                _ => Err(ParseValueError::InvalidColor),
            }
        },
    }
}

} // verus!
