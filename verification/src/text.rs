//! Texts: characters in and out of strings, and numbers in decimal and
//! hexadecimal notation.
use vstd::prelude::*;
use vstd::slice::slice_subrange;
use vstd::utf8::{encode_scalar, encode_utf8};

verus! {

/// Collects the characters of a text.
pub fn chars_of(s: &str) -> (v: Vec<char>)
    ensures
        v@ == s@,
{
    let mut v: Vec<char> = Vec::new();
    for c in it: s.chars()
        invariant
            v@ == it.seq().take(it.index() as int),
    {
        v.push(c);
    }
    v
}

/// `String::from_iter` of std, on a slice of characters: the string is made
/// of these characters, in their order.
#[verifier::external_body]
pub(crate) fn string_from(chars: &[char]) -> (s: String)
    ensures
        s@ == chars@,
{
    String::from_iter(chars)
}

/// The text made of the characters from `from` up to `to`.
pub fn string_of(chars: &Vec<char>, from: usize, to: usize) -> (s: String)
    requires
        from <= to <= chars.len(),
    ensures
        s@ == chars@.subrange(from as int, to as int),
{
    string_from(slice_subrange(chars.as_slice(), from, to))
}

/// The text that is one character.
pub fn char_text(c: char) -> (s: String)
    ensures
        s@ == seq![c],
{
    let mut one: Vec<char> = Vec::new();
    one.push(c);
    string_from(one.as_slice())
}

/// The character that shows a digit below ten.
pub open spec fn digit(d: nat) -> char {
    if d == 0 {
        '0'
    } else if d == 1 {
        '1'
    } else if d == 2 {
        '2'
    } else if d == 3 {
        '3'
    } else if d == 4 {
        '4'
    } else if d == 5 {
        '5'
    } else if d == 6 {
        '6'
    } else if d == 7 {
        '7'
    } else if d == 8 {
        '8'
    } else {
        '9'
    }
}

/// A natural number in decimal notation, without leading zeros.
pub open spec fn digits(n: nat) -> Seq<char>
    decreases n,
{
    if n < 10 {
        seq![digit(n)]
    } else {
        digits(n / 10).push(digit(n % 10))
    }
}

/// An integer in decimal notation: a minus sign before a negative one.
pub open spec fn decimal(i: int) -> Seq<char> {
    if i < 0 {
        seq!['-'] + digits((-i) as nat)
    } else {
        digits(i as nat)
    }
}

fn digit_char(d: u64) -> (c: char)
    requires
        d < 10,
    ensures
        c == digit(d as nat),
{
    if d == 0 {
        '0'
    } else if d == 1 {
        '1'
    } else if d == 2 {
        '2'
    } else if d == 3 {
        '3'
    } else if d == 4 {
        '4'
    } else if d == 5 {
        '5'
    } else if d == 6 {
        '6'
    } else if d == 7 {
        '7'
    } else if d == 8 {
        '8'
    } else {
        '9'
    }
}

fn push_digits(n: u64, out: &mut Vec<char>)
    ensures
        final(out)@ == old(out)@ + digits(n as nat),
    decreases n,
{
    if n >= 10 {
        push_digits(n / 10, out);
    }
    out.push(digit_char(n % 10));
}

/// An unsigned number in decimal notation.
pub fn unsigned_text(n: u64) -> (s: String)
    ensures
        s@ == digits(n as nat),
{
    let mut out: Vec<char> = Vec::new();
    push_digits(n, &mut out);
    string_from(out.as_slice())
}

/// A signed number in decimal notation.
pub fn decimal_text(i: i64) -> (s: String)
    ensures
        s@ == decimal(i as int),
{
    let mut out: Vec<char> = Vec::new();
    if i < 0 {
        out.push('-');
        let magnitude: u64 = ((-(i + 1)) as u64) + 1;
        push_digits(magnitude, &mut out);
    } else {
        push_digits(i as u64, &mut out);
    }
    string_from(out.as_slice())
}

/// Whether a character is a decimal digit.
pub open spec fn is_digit(c: char) -> bool {
    '0' <= c <= '9'
}

/// Whether a character is a hexadecimal digit.
pub open spec fn is_hex_digit(c: char) -> bool {
    ('0' <= c <= '9') || ('a' <= c <= 'f') || ('A' <= c <= 'F')
}

/// The number that a hexadecimal digit stands for.
pub open spec fn hex_digit_value(c: char) -> nat {
    if '0' <= c <= '9' {
        (c as u32 - '0' as u32) as nat
    } else if 'a' <= c <= 'f' {
        (c as u32 - 'a' as u32 + 10) as nat
    } else {
        (c as u32 - 'A' as u32 + 10) as nat
    }
}

/// The number that a text stands for when each of its characters is read as
/// a digit to the given base.
pub open spec fn number_value(s: Seq<char>, base: nat) -> nat
    decreases s.len(),
{
    if s.len() == 0 {
        0
    } else {
        number_value(s.drop_last(), base) * base + hex_digit_value(s.last())
    }
}

/// Whether a text is a decimal number that a signed 64-bit integer holds:
/// digits, at least one, with a value of at most `i64::MAX`.
pub open spec fn is_decimal_i64(s: Seq<char>) -> bool {
    &&& s.len() > 0
    &&& forall|i: int| 0 <= i < s.len() ==> is_digit(#[trigger] s[i])
    &&& number_value(s, 10) <= i64::MAX
}

/// Whether a text is a hexadecimal number that a signed 64-bit integer
/// holds: hexadecimal digits, at least one, with a value of at most
/// `i64::MAX`.
pub open spec fn is_hex_i64(s: Seq<char>) -> bool {
    &&& s.len() > 0
    &&& forall|i: int| 0 <= i < s.len() ==> is_hex_digit(#[trigger] s[i])
    &&& number_value(s, 16) <= i64::MAX
}

fn hex_value(c: char) -> (v: Option<u64>)
    ensures
        v is Some <==> is_hex_digit(c),
        v matches Some(d) ==> d == hex_digit_value(c) && d < 16 && (is_digit(c) <==> d < 10),
{
    if '0' <= c && c <= '9' {
        Some((c as u32 - '0' as u32) as u64)
    } else if 'a' <= c && c <= 'f' {
        Some((c as u32 - 'a' as u32 + 10) as u64)
    } else if 'A' <= c && c <= 'F' {
        Some((c as u32 - 'A' as u32 + 10) as u64)
    } else {
        None
    }
}

proof fn lemma_number_value_grows(s: Seq<char>, base: nat, k: int)
    requires
        base >= 1,
        0 <= k <= s.len(),
    ensures
        number_value(s.take(k), base) <= number_value(s, base),
    decreases s.len() - k,
{
    if k < s.len() {
        lemma_number_value_grows(s, base, k + 1);
        let t = s.take(k + 1);
        assert(t.drop_last() == s.take(k));
        assert(number_value(t, base) == number_value(s.take(k), base) * base + hex_digit_value(
            t.last(),
        ));
        assert(number_value(s.take(k), base) * base >= number_value(s.take(k), base))
            by (nonlinear_arith)
            requires
                base >= 1,
        ;
    } else {
        assert(s.take(k) == s);
    }
}

/// Reads the characters from `from` on as a number to the base 10 or 16
/// that is no greater than `limit`.
pub fn parse_digits(chars: &Vec<char>, from: usize, hex: bool, limit: u64) -> (r: Option<u64>)
    requires
        from <= chars.len(),
    ensures
        r is Some <==> {
            &&& from < chars.len()
            &&& forall|i: int|
                from <= i < chars.len() ==> if hex {
                    is_hex_digit(#[trigger] chars@[i])
                } else {
                    is_digit(chars@[i])
                }
            &&& number_value(chars@.skip(from as int), if hex { 16 } else { 10 }) <= limit
        },
        r matches Some(v) ==> v == number_value(chars@.skip(from as int), if hex { 16 } else { 10 }),
{
    let n = chars.len();
    if from >= n {
        return None;
    }
    let base: u64 = if hex { 16 } else { 10 };
    let ghost tail = chars@.skip(from as int);
    let mut value: u64 = 0;
    let mut i: usize = from;
    while i < n
        invariant
            from <= i <= n,
            n == chars.len(),
            tail == chars@.skip(from as int),
            base == (if hex { 16u64 } else { 10u64 }),
            value <= limit,
            value == number_value(tail.take(i - from), base as nat),
            forall|j: int| from <= j < i ==> if hex { is_hex_digit(#[trigger] chars@[j]) } else { is_digit(chars@[j]) },
        decreases n - i,
    {
        let c = chars[i];
        let ghost next = tail.take(i - from + 1);
        proof {
            assert(next.drop_last() == tail.take(i - from));
            assert(next.last() == c);
            lemma_number_value_grows(tail, base as nat, i - from + 1);
        }
        match hex_value(c) {
            None => {
                return None;
            },
            Some(d) => {
                if !hex && d >= 10 {
                    return None;
                }
                if d > limit {
                    assert(value * base + d > limit) by (nonlinear_arith)
                        requires
                            d > limit,
                            base >= 1,
                            value >= 0,
                    ;
                    return None;
                }
                let room: u64 = (limit - d) / base;
                if value > room {
                    assert(value * base + d > limit) by (nonlinear_arith)
                        requires
                            value > room,
                            room == (limit - d) as int / base as int,
                            base >= 1,
                            d <= limit,
                    ;
                    return None;
                }
                assert(value * base + d <= limit) by (nonlinear_arith)
                    requires
                        value <= room,
                        room == (limit - d) as int / base as int,
                        base >= 1,
                        d <= limit,
                ;
                value = value * base + d;
            },
        }
        i = i + 1;
    }
    assert(tail.take(n - from) == tail);
    Some(value)
}

/// Reads characters as a number to the base 10 or 16.
fn parse_number(chars: &Vec<char>, hex: bool) -> (r: Option<i64>)
    ensures
        r is Some <==> if hex {
            is_hex_i64(chars@)
        } else {
            is_decimal_i64(chars@)
        },
        r matches Some(v) ==> v == number_value(chars@, if hex { 16 } else { 10 }),
{
    assert(chars@.skip(0) == chars@);
    match parse_digits(chars, 0, hex, 0x7fff_ffff_ffff_ffff) {
        Some(value) => Some(value as i64),
        None => None,
    }
}

/// Reads a text of decimal digits as a signed 64-bit integer.
pub fn parse_decimal(text: &str) -> (r: Option<i64>)
    ensures
        r is Some <==> is_decimal_i64(text@),
        r matches Some(v) ==> v == number_value(text@, 10),
{
    let chars = chars_of(text);
    parse_number(&chars, false)
}

/// Reads a text of hexadecimal digits as a signed 64-bit integer.
pub fn parse_hex(text: &str) -> (r: Option<i64>)
    ensures
        r is Some <==> is_hex_i64(text@),
        r matches Some(v) ==> v == number_value(text@, 16),
{
    let chars = chars_of(text);
    parse_number(&chars, true)
}

/// The count of bytes that a character takes in UTF-8.
pub open spec fn width(c: char) -> nat {
    if c as u32 <= 0x7F {
        1
    } else if c as u32 <= 0x7FF {
        2
    } else if c as u32 <= 0xFFFF {
        3
    } else {
        4
    }
}

/// The count of bytes that a text takes in UTF-8.
pub open spec fn byte_len(s: Seq<char>) -> nat
    decreases s.len(),
{
    if s.len() == 0 {
        0
    } else {
        byte_len(s.drop_last()) + width(s.last())
    }
}

/// The count of bytes that a character takes in UTF-8.
pub fn char_width(c: char) -> (w: usize)
    ensures
        w == width(c),
        1 <= w <= 4,
{
    let v = c as u32;
    if v <= 0x7F {
        1
    } else if v <= 0x7FF {
        2
    } else if v <= 0xFFFF {
        3
    } else {
        4
    }
}

proof fn lemma_encode_push(s: Seq<char>, c: char)
    ensures
        encode_utf8(s.push(c)) == encode_utf8(s) + encode_scalar(c as u32),
    decreases s.len(),
{
    let longer = s.push(c);
    if s.len() == 0 {
        assert(longer.drop_first() == Seq::<char>::empty());
        assert(encode_utf8(longer.drop_first()) == Seq::<u8>::empty());
        assert(encode_utf8(s) == Seq::<u8>::empty());
        assert(encode_utf8(longer) == encode_scalar(c as u32) + Seq::<u8>::empty());
    } else {
        assert(longer.drop_first() == s.drop_first().push(c));
        lemma_encode_push(s.drop_first(), c);
        assert(encode_utf8(longer) == encode_scalar(s[0] as u32) + (encode_utf8(s.drop_first())
            + encode_scalar(c as u32)));
        assert(encode_utf8(s) == encode_scalar(s[0] as u32) + encode_utf8(s.drop_first()));
    }
}

/// The count of bytes is the length of the UTF-8 encoding.
pub proof fn lemma_byte_len_is_encoded_len(s: Seq<char>)
    ensures
        byte_len(s) == encode_utf8(s).len(),
    decreases s.len(),
{
    if s.len() > 0 {
        lemma_byte_len_is_encoded_len(s.drop_last());
        lemma_encode_push(s.drop_last(), s.last());
        assert(s.drop_last().push(s.last()) == s);
        vstd::utf8::char_is_scalar(s.last());
    }
}

/// A part of a text from its start takes no more bytes than the text.
pub proof fn lemma_byte_len_take(s: Seq<char>, k: int)
    requires
        0 <= k <= s.len(),
    ensures
        byte_len(s.take(k)) <= byte_len(s),
        k < s.len() ==> byte_len(s.take(k + 1)) == byte_len(s.take(k)) + width(s[k]),
        k <= byte_len(s.take(k)),
    decreases s.len() - k,
{
    if k < s.len() {
        lemma_byte_len_take(s, k + 1);
        assert(s.take(k + 1).drop_last() == s.take(k));
    } else {
        assert(s.take(k) == s);
    }
    lemma_byte_len_at_least(s.take(k));
}

proof fn lemma_byte_len_at_least(s: Seq<char>)
    ensures
        s.len() <= byte_len(s),
    decreases s.len(),
{
    if s.len() > 0 {
        lemma_byte_len_at_least(s.drop_last());
    }
}

/// The characters of a text, and that their UTF-8 encoding has a length
/// that a `usize` holds.
pub fn chars_within(s: &str) -> (v: Vec<char>)
    ensures
        v@ == s@,
        byte_len(v@) <= usize::MAX,
{
    let bytes = s.as_bytes();
    let n = bytes.len();
    proof {
        lemma_byte_len_is_encoded_len(s@);
    }
    chars_of(s)
}

} // verus!
