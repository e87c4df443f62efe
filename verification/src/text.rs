//! Text as it crosses the C boundary: decimal numbers, NUL-terminated strings,
//! UTF-16 and UTF-8.

use vstd::prelude::*;

verus! {

broadcast use vstd::string::group_string_axioms;

/// `String::push` appends the given character to the end of the string.
pub assume_specification[ String::push ](text: &mut String, c: char)
    ensures
        final(text)@ == old(text)@.push(c),
;

/// `char::from_u32` converts every Unicode scalar value to the character of
/// that number, and nothing else.
pub assume_specification[ char::from_u32 ](i: u32) -> (c: Option<char>)
    ensures
        c == if vstd::utf8::is_scalar(i) {
            Some(i as char)
        } else {
            None::<char>
        },
;

/// What `String::from_utf8_lossy` makes of a byte string.
pub uninterp spec fn utf8_lossy(bytes: Seq<u8>) -> Seq<char>;

/// `String::from_utf8_lossy`: its result depends on the bytes alone, and is
/// their decoding where they are valid UTF-8. How invalid bytes are replaced is
/// left unsaid.
#[verifier::external_body]
fn from_utf8_lossy(bytes: &[u8]) -> (text: String)
    ensures
        text@ == utf8_lossy(bytes@),
        vstd::utf8::valid_utf8(bytes@) ==> text@ == vstd::utf8::decode_utf8(bytes@),
{
    String::from_utf8_lossy(bytes).into_owned()
}

/// What `{:?}` prints of a string.
pub uninterp spec fn quoted(text: Seq<char>) -> Seq<char>;

/// Whether every character is printable ASCII, other than the double quote and
/// the backslash.
pub open spec fn is_plain(text: Seq<char>) -> bool {
    forall|i: int|
        0 <= i < text.len() ==> 0x20 <= (#[trigger] text[i]) as u32 <= 0x7E && text[i] != '"'
            && text[i] != '\\'
}

/// `text` between double quotes.
pub open spec fn between_quotes(text: Seq<char>) -> Seq<char> {
    seq!['"'] + text + seq!['"']
}

/// The `Debug` form of a `str`, as `format!("{:?}")` prints it: its result
/// depends on the characters alone, and is the text between double quotes where
/// no character of it needs an escape. How the others are escaped is left
/// unsaid.
#[verifier::external_body]
pub(crate) fn debug_text(text: &str) -> (out: String)
    ensures
        out@ == quoted(text@),
        is_plain(text@) ==> out@ == between_quotes(text@),
{
    format!("{text:?}")
}

// ---------------------------------------------------------------------------
// Decimal numbers
// ---------------------------------------------------------------------------

/// The character of the decimal digit `d`.
pub open spec fn digit(d: nat) -> char {
    (0x30 + d) as char
}

/// `n` in decimal, without leading zeros.
pub open spec fn decimal(n: nat) -> Seq<char>
    decreases n,
{
    if n < 10 {
        seq![digit(n)]
    } else {
        decimal(n / 10).push(digit(n % 10))
    }
}

/// `n` in decimal, with a minus sign in front where it is negative.
pub open spec fn signed_decimal(n: int) -> Seq<char> {
    if n < 0 {
        seq!['-'] + decimal((-n) as nat)
    } else {
        decimal(n as nat)
    }
}

/// Prints `n` in decimal.
pub fn decimal_text(n: u64) -> (text: String)
    ensures
        text@ == decimal(n as nat),
    decreases n,
{
    if n < 10 {
        let mut text = String::new();
        text.push((0x30 + n as u8) as char);
        assert(text@ == decimal(n as nat));
        text
    } else {
        let mut text = decimal_text(n / 10);
        text.push((0x30 + (n % 10) as u8) as char);
        text
    }
}

/// Prints `n` in decimal.
pub fn signed_decimal_text(n: i64) -> (text: String)
    ensures
        text@ == signed_decimal(n as int),
{
    if n < 0 {
        let mut text = String::from_str("-");
        let magnitude: u64 = if n == i64::MIN {
            0x8000_0000_0000_0000
        } else {
            (-n) as u64
        };
        text.append(decimal_text(magnitude).as_str());
        proof {
            reveal_strlit("-");
            assert("-"@ =~= seq!['-']);
        }
        text
    } else {
        decimal_text(n as u64)
    }
}

/// Whether `c` is a decimal digit.
pub open spec fn is_digit(c: char) -> bool {
    0x30 <= c as u32 <= 0x39
}

/// The number that a string of decimal digits writes.
pub open spec fn digits_value(digits: Seq<char>) -> nat
    decreases digits.len(),
{
    if digits.len() == 0 {
        0
    } else {
        digits_value(digits.drop_last()) * 10 + (digits.last() as u32 - 0x30) as nat
    }
}

/// `text` without the plus sign that may stand in front of a number.
pub open spec fn without_plus(text: Seq<char>) -> Seq<char> {
    if text.len() > 0 && text[0] == '+' {
        text.skip(1)
    } else {
        text
    }
}

/// Whether `text` writes an unsigned number: at least one digit and nothing
/// else, but for one plus sign in front.
pub open spec fn is_unsigned(text: Seq<char>) -> bool {
    &&& without_plus(text).len() > 0
    &&& forall|i: int| 0 <= i < without_plus(text).len() ==> is_digit(#[trigger] without_plus(text)[i])
}

/// The unsigned number that `text` writes, where it writes one of at most `max`.
pub open spec fn parse_unsigned(text: Seq<char>, max: nat) -> Option<nat> {
    if is_unsigned(text) && digits_value(without_plus(text)) <= max {
        Some(digits_value(without_plus(text)))
    } else {
        None
    }
}

/// Digits in front only make a number larger.
proof fn lemma_digits_value_grows(digits: Seq<char>, k: int)
    requires
        0 <= k <= digits.len(),
        forall|i: int| 0 <= i < digits.len() ==> is_digit(#[trigger] digits[i]),
    ensures
        digits_value(digits.take(k)) <= digits_value(digits),
    decreases digits.len() - k,
{
    if k == digits.len() {
        assert(digits.take(k) == digits);
    } else {
        lemma_digits_value_grows(digits, k + 1);
        assert(digits.take(k + 1).drop_last() == digits.take(k));
        assert(is_digit(digits[k]));
    }
}

/// The characters of `text`.
fn characters(text: &str) -> (out: Vec<char>)
    ensures
        out@ == text@,
{
    let mut out: Vec<char> = Vec::new();
    for c in it: text.chars()
        invariant
            it.seq() == text@,
            out@ == it.seq().take(it.index() as int),
    {
        out.push(c);
        assert(it.seq().take(it.index() + 1) == it.seq().take(it.index() as int).push(c));
    }
    out
}

/// Reads an unsigned decimal number of at most 64 bits.
pub fn parse_u64(text: &str) -> (number: Option<u64>)
    ensures
        match number {
            Some(n) => parse_unsigned(text@, u64::MAX as nat) == Some(n as nat),
            None => parse_unsigned(text@, u64::MAX as nat) is None,
        },
{
    let chars = characters(text);
    let start: usize = if chars.len() > 0 && chars[0] == '+' {
        1
    } else {
        0
    };
    let ghost digits = without_plus(text@);
    assert(digits == text@.skip(start as int));
    if chars.len() == start {
        return None;
    }
    let mut value: u64 = 0;
    let mut i: usize = start;
    while i < chars.len()
        invariant
            start <= i <= chars.len(),
            start <= 1,
            chars@ == text@,
            digits == without_plus(text@),
            digits == text@.skip(start as int),
            digits.len() > 0,
            forall|k: int| 0 <= k < i - start ==> is_digit(#[trigger] digits[k]),
            value == digits_value(digits.take(i - start)),
        decreases chars.len() - i,
    {
        let c = chars[i];
        assert(digits[i - start] == c);
        if (c as u32) < 0x30 || (c as u32) > 0x39 {
            assert(!is_digit(digits[i - start]));
            return None;
        }
        let d: u64 = (c as u32 - 0x30) as u64;
        let ghost k = i - start;
        assert(digits.take(k + 1).drop_last() == digits.take(k));
        assert(digits.take(k + 1).last() == c);
        assert(digits_value(digits.take(k + 1)) == value * 10 + d);
        proof {
            if is_unsigned(text@) {
                lemma_digits_value_grows(digits, k + 1);
            }
        }
        if value > u64::MAX / 10 {
            return None;
        }
        let tens: u64 = value * 10;
        if tens > u64::MAX - d {
            return None;
        }
        value = tens + d;
        i += 1;
    }
    assert(digits.take(i - start) == digits);
    Some(value)
}

/// Reads an unsigned decimal number of at most 32 bits.
pub fn parse_u32(text: &str) -> (number: Option<u32>)
    ensures
        match number {
            Some(n) => parse_unsigned(text@, u32::MAX as nat) == Some(n as nat),
            None => parse_unsigned(text@, u32::MAX as nat) is None,
        },
{
    match parse_u64(text) {
        Some(n) => {
            if n <= u32::MAX as u64 {
                Some(n as u32)
            } else {
                None
            }
        },
        None => None,
    }
}

proof fn lemma_decimal_digits(n: nat)
    ensures
        decimal(n).len() > 0,
        forall|i: int| 0 <= i < decimal(n).len() ==> is_digit(#[trigger] decimal(n)[i]),
        digits_value(decimal(n)) == n,
    decreases n,
{
    if n < 10 {
        assert(decimal(n).drop_last() =~= Seq::empty());
        assert(digits_value(decimal(n).drop_last()) == 0);
        assert(decimal(n).last() == digit(n));
    } else {
        lemma_decimal_digits(n / 10);
        assert(decimal(n).drop_last() =~= decimal(n / 10));
        assert(decimal(n).last() == digit(n % 10));
    }
}

/// What is printed in decimal is read back as the same number.
pub proof fn law_decimal_round_trip(n: nat, max: nat)
    requires
        n <= max,
    ensures
        parse_unsigned(decimal(n), max) == Some(n),
{
    lemma_decimal_digits(n);
    assert(is_digit(decimal(n)[0]));
    assert(without_plus(decimal(n)) == decimal(n));
}

/// Different numbers are printed differently.
pub proof fn law_decimal_distinct(m: nat, n: nat)
    requires
        m != n,
    ensures
        decimal(m) != decimal(n),
{
    lemma_decimal_digits(m);
    lemma_decimal_digits(n);
}

// ---------------------------------------------------------------------------
// NUL-terminated strings
// ---------------------------------------------------------------------------

/// `s` up to the first `end`, or all of it where there is none.
pub open spec fn until<T>(s: Seq<T>, end: T) -> Seq<T>
    decreases s.len(),
{
    if s.len() == 0 || s[0] == end {
        Seq::empty()
    } else {
        seq![s[0]] + until(s.skip(1), end)
    }
}

/// The part of a sequence before the first `end` is told by its elements.
proof fn lemma_until<T>(s: Seq<T>, end: T, len: int)
    requires
        0 <= len <= s.len(),
        forall|i: int| 0 <= i < len ==> s[i] != end,
        len < s.len() ==> s[len] == end,
    ensures
        until(s, end) == s.take(len),
    decreases s.len(),
{
    if len == 0 {
        assert(s.take(0) =~= Seq::empty());
    } else {
        let tail = s.skip(1);
        assert forall|i: int| 0 <= i < len - 1 implies tail[i] != end by {
            assert(s[i + 1] != end);
        }
        lemma_until(tail, end, len - 1);
        assert(s.take(len) =~= seq![s[0]] + tail.take(len - 1));
    }
}

/// The part of a sequence before the first `end` does not hold it.
proof fn lemma_until_excludes<T>(s: Seq<T>, end: T)
    ensures
        forall|i: int| 0 <= i < until(s, end).len() ==> until(s, end)[i] != end,
    decreases s.len(),
{
    if s.len() > 0 && s[0] != end {
        let tail = until(s.skip(1), end);
        lemma_until_excludes(s.skip(1), end);
        assert(forall|i: int| 0 < i < until(s, end).len() ==> until(s, end)[i] == tail[i - 1]);
    }
}

/// The text of a C string as the C interface hands it out: a message that holds
/// a NUL cannot be one, and becomes the empty text.
pub open spec fn c_text(message: Seq<char>) -> Seq<char> {
    if message.contains('\0') {
        Seq::empty()
    } else {
        message
    }
}

/// Whether `text` holds a NUL, and so has no form as a C string.
pub fn has_nul(text: &str) -> (found: bool)
    ensures
        found == text@.contains('\0'),
{
    let chars = characters(text);
    let mut i: usize = 0;
    while i < chars.len()
        invariant
            i <= chars.len(),
            chars@ == text@,
            forall|k: int| 0 <= k < i ==> text@[k] != '\0',
        decreases chars.len() - i,
    {
        if chars[i] == '\0' {
            assert(text@[i as int] == '\0');
            return true;
        }
        i += 1;
    }
    false
}

/// The text in a buffer that holds a NUL-terminated (or full-length) C string.
pub fn c_buffer_text(buffer: &[u8]) -> (text: String)
    ensures
        text@ == utf8_lossy(until(buffer@, 0u8)),
        vstd::utf8::valid_utf8(until(buffer@, 0u8)) ==> text@ == vstd::utf8::decode_utf8(
            until(buffer@, 0u8),
        ),
{
    let mut len: usize = 0;
    while len < buffer.len() && buffer[len] != 0
        invariant
            len <= buffer.len(),
            forall|i: int| 0 <= i < len ==> buffer@[i] != 0,
        decreases buffer.len() - len,
    {
        len += 1;
    }
    proof {
        lemma_until(buffer@, 0u8, len as int);
        assert(buffer@.subrange(0, len as int) == buffer@.take(len as int));
    }
    from_utf8_lossy(vstd::slice::slice_subrange(buffer, 0, len))
}

// ---------------------------------------------------------------------------
// UTF-16
// ---------------------------------------------------------------------------

/// Whether `unit` is the first half of a surrogate pair.
pub open spec fn is_high_surrogate(unit: u16) -> bool {
    0xD800 <= unit <= 0xDBFF
}

/// Whether `unit` is the second half of a surrogate pair.
pub open spec fn is_low_surrogate(unit: u16) -> bool {
    0xDC00 <= unit <= 0xDFFF
}

/// The scalar value that a surrogate pair stands for.
pub open spec fn pair_value(high: u16, low: u16) -> int {
    0x10000 + (high - 0xD800) * 0x400 + (low - 0xDC00)
}

/// The text that UTF-16 code units write, with U+FFFD in place of each
/// surrogate that is not part of a pair.
pub open spec fn utf16_lossy(units: Seq<u16>) -> Seq<char>
    decreases units.len(),
{
    if units.len() == 0 {
        Seq::empty()
    } else if is_high_surrogate(units[0]) && units.len() > 1 && is_low_surrogate(units[1]) {
        seq![pair_value(units[0], units[1]) as char] + utf16_lossy(units.skip(2))
    } else if is_high_surrogate(units[0]) || is_low_surrogate(units[0]) {
        seq!['\u{FFFD}'] + utf16_lossy(units.skip(1))
    } else {
        seq![units[0] as char] + utf16_lossy(units.skip(1))
    }
}

/// Converts a NUL-terminated (or full-length) UTF-16 slice to a String.
pub fn utf16_to_string(units: &[u16]) -> (text: String)
    ensures
        text@ == utf16_lossy(until(units@, 0u16)),
{
    let mut len: usize = 0;
    while len < units.len() && units[len] != 0
        invariant
            len <= units.len(),
            forall|i: int| 0 <= i < len ==> units@[i] != 0,
        decreases units.len() - len,
    {
        len += 1;
    }
    let ghost body = units@.take(len as int);
    proof {
        lemma_until(units@, 0u16, len as int);
        assert(body.skip(0) == body);
    }
    let mut text = String::new();
    let mut i: usize = 0;
    while i < len
        invariant
            i <= len <= units.len(),
            body == units@.take(len as int),
            text@ + utf16_lossy(body.skip(i as int)) == utf16_lossy(body),
        decreases len - i,
    {
        let unit = units[i];
        let ghost rest = body.skip(i as int);
        let ghost before = text@;
        assert(rest[0] == unit);
        let paired = 0xD800 <= unit && unit <= 0xDBFF && i + 1 < len && 0xDC00 <= units[i + 1]
            && units[i + 1] <= 0xDFFF;
        if paired {
            let low = units[i + 1];
            assert(rest[1] == low);
            let value: u32 = 0x10000 + (unit as u32 - 0xD800) * 0x400 + (low as u32 - 0xDC00);
            match char::from_u32(value) {
                Some(c) => {
                    text.push(c);
                },
                None => {},
            }
            assert(rest.skip(2) == body.skip(i + 2));
            i += 2;
        } else {
            let scalar: u32 = unit as u32;
            match char::from_u32(scalar) {
                Some(c) => {
                    text.push(c);
                },
                None => {
                    text.push('\u{FFFD}');
                },
            }
            assert(rest.skip(1) == body.skip(i + 1));
            i += 1;
        }
        proof {
            let c = text@.last();
            assert(text@ == before.push(c));
            assert(before + (seq![c] + utf16_lossy(body.skip(i as int))) == text@ + utf16_lossy(
                body.skip(i as int),
            ));
        }
    }
    assert(utf16_lossy(body.skip(i as int)) == Seq::<char>::empty());
    text
}

/// The UTF-16 code units of one character.
pub open spec fn utf16_units(c: char) -> Seq<u16> {
    let value = c as int;
    if value < 0x10000 {
        seq![value as u16]
    } else {
        seq![
            (0xD800 + (value - 0x10000) / 0x400) as u16,
            (0xDC00 + (value - 0x10000) % 0x400) as u16,
        ]
    }
}

/// The UTF-16 form of a text.
pub open spec fn utf16_encode(text: Seq<char>) -> Seq<u16>
    decreases text.len(),
{
    if text.len() == 0 {
        Seq::empty()
    } else {
        utf16_units(text[0]) + utf16_encode(text.skip(1))
    }
}

proof fn lemma_utf16_units(c: char)
    ensures
        utf16_units(c).len() == 1 ==> {
            &&& !is_high_surrogate(utf16_units(c)[0])
            &&& !is_low_surrogate(utf16_units(c)[0])
            &&& utf16_units(c)[0] as char == c
        },
        utf16_units(c).len() != 1 ==> {
            &&& utf16_units(c).len() == 2
            &&& is_high_surrogate(utf16_units(c)[0])
            &&& is_low_surrogate(utf16_units(c)[1])
            &&& pair_value(utf16_units(c)[0], utf16_units(c)[1]) as char == c
        },
        c != '\0' ==> forall|i: int|
            0 <= i < utf16_units(c).len() ==> #[trigger] utf16_units(c)[i] != 0,
{
    vstd::utf8::char_is_scalar(c);
    assert(c as int == c as u32);
}

proof fn lemma_utf16_decode_encode(text: Seq<char>)
    ensures
        utf16_lossy(utf16_encode(text)) == text,
    decreases text.len(),
{
    if text.len() > 0 {
        let head = utf16_units(text[0]);
        let tail = utf16_encode(text.skip(1));
        let units = utf16_encode(text);
        lemma_utf16_decode_encode(text.skip(1));
        assert(units.skip(head.len() as int) =~= tail);
        assert(units[0] == head[0]);
        lemma_utf16_units(text[0]);
        if head.len() == 2 {
            assert(units[1] == head[1]);
        }
        assert(text =~= seq![text[0]] + text.skip(1));
    } else {
        assert(text =~= Seq::empty());
    }
}

proof fn lemma_utf16_encode_no_nul(text: Seq<char>, i: int)
    requires
        !text.contains('\0'),
        0 <= i < utf16_encode(text).len(),
    ensures
        utf16_encode(text)[i] != 0,
    decreases text.len(),
{
    let head = utf16_units(text[0]);
    assert(text.contains(text[0]));
    lemma_utf16_units(text[0]);
    if i >= head.len() {
        assert forall|c: char| text.skip(1).contains(c) implies text.contains(c) by {
            let k = choose|k: int| 0 <= k < text.skip(1).len() && text.skip(1)[k] == c;
            assert(text[k + 1] == c);
        }
        lemma_utf16_encode_no_nul(text.skip(1), i - head.len());
    }
}

/// A name without NUL comes back whole from the buffer that holds it in UTF-16,
/// whatever stands behind the NUL that ends it.
pub proof fn law_utf16_round_trip(text: Seq<char>, behind: Seq<u16>)
    requires
        !text.contains('\0'),
    ensures
        utf16_lossy(until(utf16_encode(text) + seq![0u16] + behind, 0u16)) == text,
        utf16_lossy(until(utf16_encode(text), 0u16)) == text,
{
    let units = utf16_encode(text);
    let buffer = units + seq![0u16] + behind;
    assert forall|i: int| 0 <= i < units.len() implies units[i] != 0 by {
        lemma_utf16_encode_no_nul(text, i);
    }
    assert(forall|i: int| 0 <= i < units.len() ==> buffer[i] == units[i]);
    lemma_until(buffer, 0u16, units.len() as int);
    lemma_until(units, 0u16, units.len() as int);
    assert(buffer.take(units.len() as int) =~= units);
    assert(units.take(units.len() as int) =~= units);
    lemma_utf16_decode_encode(text);
}

proof fn lemma_utf16_lossy_no_nul(units: Seq<u16>)
    requires
        forall|i: int| 0 <= i < units.len() ==> units[i] != 0,
    ensures
        !utf16_lossy(units).contains('\0'),
    decreases units.len(),
{
    if units.len() > 0 {
        let text = utf16_lossy(units);
        let n: int = if is_high_surrogate(units[0]) && units.len() > 1 && is_low_surrogate(units[1]) {
            2
        } else {
            1
        };
        lemma_utf16_lossy_no_nul(units.skip(n));
        assert(text.skip(1) =~= utf16_lossy(units.skip(n)));
        assert(text[0] != '\0');
        if text.contains('\0') {
            let i = choose|i: int| 0 <= i < text.len() && text[i] == '\0';
            assert(text.skip(1)[i - 1] == '\0');
        }
    }
}

/// A name that comes out of a UTF-16 buffer holds no NUL, so it always has a form
/// as a C string.
pub proof fn law_utf16_text_has_no_nul(units: Seq<u16>)
    ensures
        !utf16_lossy(until(units, 0u16)).contains('\0'),
        c_text(utf16_lossy(until(units, 0u16))) == utf16_lossy(until(units, 0u16)),
{
    lemma_until_excludes(units, 0u16);
    lemma_utf16_lossy_no_nul(until(units, 0u16));
}

/// A number is printed in the digits 0 to 9 alone, without a leading zero; the
/// last digit is its remainder by ten, and those before it print the rest.
pub proof fn law_decimal_form(n: nat)
    ensures
        decimal(n).len() > 0,
        forall|i: int|
            0 <= i < decimal(n).len() ==> 0x30 <= (#[trigger] decimal(n)[i]) as u32 <= 0x39,
        decimal(n).last() as u32 == 0x30 + n % 10,
        n < 10 ==> decimal(n).len() == 1,
        n >= 10 ==> decimal(n).drop_last() == decimal(n / 10),
        n > 0 ==> decimal(n)[0] as u32 != 0x30,
    decreases n,
{
    lemma_decimal_digits(n);
    assert(is_digit(decimal(n)[0]));
    assert forall|i: int| 0 <= i < decimal(n).len() implies 0x30 <= (#[trigger] decimal(
        n,
    )[i]) as u32 <= 0x39 by {
        assert(is_digit(decimal(n)[i]));
    }
    if n >= 10 {
        law_decimal_form(n / 10);
        assert(decimal(n).drop_last() =~= decimal(n / 10));
        assert(decimal(n)[0] == decimal(n / 10)[0]);
    }
}

/// A negative number is printed as a minus sign and its magnitude, any other as
/// its magnitude alone.
pub proof fn law_signed_decimal_form(n: int)
    ensures
        n >= 0 ==> signed_decimal(n) == decimal(n as nat),
        n < 0 ==> signed_decimal(n).len() == decimal((-n) as nat).len() + 1,
        n < 0 ==> signed_decimal(n)[0] == '-',
        n < 0 ==> signed_decimal(n).skip(1) == decimal((-n) as nat),
{
    if n < 0 {
        assert(signed_decimal(n).skip(1) =~= decimal((-n) as nat));
    }
}

/// Digits write a number by place: each digit behind others multiplies what they
/// write by ten and adds itself. Any digits, leading zeros too and with or without
/// a plus sign in front, are read as the number that they write, where it is not
/// too large.
pub proof fn law_digits_are_read(digits: Seq<char>, max: nat)
    requires
        digits.len() > 0,
        forall|i: int| 0 <= i < digits.len() ==> 0x30 <= (#[trigger] digits[i]) as u32 <= 0x39,
    ensures
        digits_value(digits) == 10 * digits_value(digits.drop_last()) + (digits.last() as u32
            - 0x30),
        digits_value(Seq::empty()) == 0,
        digits_value(digits) <= max ==> parse_unsigned(digits, max) == Some(digits_value(digits)),
        digits_value(digits) > max ==> parse_unsigned(digits, max) is None,
        parse_unsigned(seq!['+'] + digits, max) == parse_unsigned(digits, max),
{
    assert(0x30 <= digits[0] as u32 <= 0x39);
    assert(without_plus(digits) == digits);
    assert((seq!['+'] + digits).skip(1) =~= digits);
    assert forall|i: int| 0 <= i < digits.len() implies is_digit(#[trigger] digits[i]) by {}
}

/// Text that is empty, or holds anything but digits behind one plus sign, is read
/// as no number.
pub proof fn law_other_text_is_no_number(text: Seq<char>, max: nat, i: int)
    requires
        text.len() == 0 || text == seq!['+'] || (0 <= i < text.len() && !(0x30 <= text[i] as u32
            <= 0x39) && (i > 0 || text[i] != '+')),
    ensures
        parse_unsigned(text, max) is None,
{
    let digits = without_plus(text);
    if text.len() > 0 && text != seq!['+'] {
        let k = if text[0] == '+' {
            i - 1
        } else {
            i
        };
        assert(!is_digit(digits[k]));
    }
}

/// A C string in a buffer ends right before the first NUL, or where the buffer
/// ends, and holds all that stands before.
pub proof fn law_until<T>(s: Seq<T>, end: T)
    ensures
        until(s, end).len() <= s.len(),
        forall|i: int|
            0 <= i < until(s, end).len() ==> #[trigger] until(s, end)[i] == s[i] && s[i] != end,
        until(s, end).len() < s.len() ==> s[until(s, end).len() as int] == end,
    decreases s.len(),
{
    if s.len() > 0 && s[0] != end {
        let tail = s.skip(1);
        law_until(tail, end);
        assert forall|i: int| 0 <= i < until(s, end).len() implies #[trigger] until(s, end)[i]
            == s[i] && s[i] != end by {
            if i > 0 {
                assert(until(s, end)[i] == until(tail, end)[i - 1]);
                assert(tail[i - 1] == s[i]);
            }
        }
    }
}

/// A message without a NUL is remembered as it is; one with a NUL as nothing.
pub proof fn law_c_text(message: Seq<char>)
    ensures
        !message.contains('\0') ==> c_text(message) == message,
        message.contains('\0') ==> c_text(message).len() == 0,
{
}

/// UTF-16 is read from the front: a code unit that is no surrogate is the
/// character of its number, a pair of surrogates the character that the pair
/// stands for, and any other surrogate one U+FFFD; what follows is read alike.
pub proof fn law_utf16_next_character(units: Seq<u16>)
    requires
        units.len() > 0,
    ensures
        ({
            let text = utf16_lossy(units);
            let high = 0xD800 <= units[0] <= 0xDBFF;
            let low = 0xDC00 <= units[0] <= 0xDFFF;
            let paired = high && units.len() > 1 && 0xDC00 <= units[1] <= 0xDFFF;
            &&& text.len() > 0
            &&& !high && !low ==> text[0] as u32 == units[0] && text.skip(1) == utf16_lossy(
                units.skip(1),
            )
            &&& paired ==> text[0] as u32 == 0x10000 + (units[0] - 0xD800) * 0x400 + (units[1]
                - 0xDC00) && text.skip(1) == utf16_lossy(units.skip(2))
            &&& (high || low) && !paired ==> text[0] == '\u{FFFD}' && text.skip(1) == utf16_lossy(
                units.skip(1),
            )
        }),
        utf16_lossy(Seq::empty()).len() == 0,
{
    let text = utf16_lossy(units);
    let paired = is_high_surrogate(units[0]) && units.len() > 1 && is_low_surrogate(units[1]);
    if paired {
        assert(text.skip(1) =~= utf16_lossy(units.skip(2)));
    } else {
        assert(text.skip(1) =~= utf16_lossy(units.skip(1)));
    }
}

} // verus!
