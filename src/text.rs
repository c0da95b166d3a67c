//! Small verified helpers on text: equality, decimal numbers, blank text and
//! UTF-8 decoding.

use vstd::prelude::*;
use vstd::utf8::*;

verus! {

broadcast use encode_utf8_decode_utf8;

/// The views of a sequence of string pairs.
pub open spec fn pairs_view(p: Seq<(String, String)>) -> Seq<(Seq<char>, Seq<char>)> {
    p.map_values(|e: (String, String)| (e.0@, e.1@))
}

/// Relies on `String::push_str`: the text is added at the end.
#[verifier::external_body]
pub(crate) fn push_str(s: &mut String, t: &str)
    ensures
        final(s)@ == old(s)@ + t@,
{
    s.push_str(t)
}

/// Whether two strings hold the same characters.
pub fn str_eq(a: &str, b: &str) -> (r: bool)
    ensures
        r == (a@ == b@),
{
    let x = a.as_bytes();
    let y = b.as_bytes();
    if x.len() != y.len() {
        return false;
    }
    let mut i: usize = 0;
    while i < x.len()
        invariant
            0 <= i <= x@.len(),
            x@.len() == y@.len(),
            x@ == encode_utf8(a@),
            y@ == encode_utf8(b@),
            forall|j: int| 0 <= j < i ==> x@[j] == y@[j],
        decreases x@.len() - i,
    {
        if x[i] != y[i] {
            return false;
        }
        i += 1;
    }
    assert(x@ =~= y@);
    assert(a@ == decode_utf8(encode_utf8(a@)));
    assert(b@ == decode_utf8(encode_utf8(b@)));
    true
}


/// A decimal digit.
pub open spec fn is_digit(c: char) -> bool {
    '0' <= c && c <= '9'
}

proof fn lemma_digit_is_ascii(c: char)
    requires
        is_digit(c),
    ensures
        '\0' <= c && c <= '\u{7f}',
{
}

proof fn lemma_ascii_byte(c: char, b: u8)
    requires
        (c as nat) < 128,
        b == c as u8,
    ensures
        (48 <= b && b <= 57) == is_digit(c),
        is_digit(c) ==> (b - 48) as nat == (c as nat) - ('0' as nat),
{
}

/// The value of a string of decimal digits, most significant first.
pub open spec fn digits_value(s: Seq<char>) -> nat
    decreases s.len(),
{
    if s.len() == 0 {
        0
    } else {
        digits_value(s.drop_last()) * 10 + ((s.last() as nat) - ('0' as nat)) as nat
    }
}

/// The number that `s` writes in decimal: one or more digits and nothing else.
pub open spec fn decimal_of(s: Seq<char>) -> Option<nat> {
    if s.len() > 0 && forall|i: int| 0 <= i < s.len() ==> is_digit(#[trigger] s[i]) {
        Some(digits_value(s))
    } else {
        None
    }
}

/// The number that `s` writes in decimal, where it is at most `max`.
pub open spec fn bounded_decimal(s: Seq<char>, max: nat) -> Option<nat> {
    match decimal_of(s) {
        Some(v) => if v <= max { Some(v) } else { None },
        None => None,
    }
}

proof fn lemma_digits_value_grows(s: Seq<char>, k: int)
    requires
        0 <= k <= s.len(),
        forall|i: int| 0 <= i < s.len() ==> is_digit(#[trigger] s[i]),
    ensures
        digits_value(s.subrange(0, k)) <= digits_value(s),
    decreases s.len(),
{
    if k < s.len() {
        assert(s.drop_last() =~= s.subrange(0, s.len() - 1));
        lemma_digits_value_grows(s.drop_last(), k);
        assert(s.drop_last().subrange(0, k) =~= s.subrange(0, k));
    } else {
        assert(s.subrange(0, k) =~= s);
    }
}

/// Reads a decimal number of at most `u64::MAX`.
pub fn parse_u64(s: &str) -> (r: Option<u64>)
    ensures
        r matches Some(v) ==> bounded_decimal(s@, u64::MAX as nat) == Some(v as nat),
        r is None ==> bounded_decimal(s@, u64::MAX as nat) is None,
{
    if !s.is_ascii() {
        proof {
            if decimal_of(s@) is Some {
                assert forall|i: int| 0 <= i < s@.len() implies '\0' <= s@[i] && s@[i] <= '\u{7f}' by {
                    lemma_digit_is_ascii(s@[i]);
                }
                assert(is_ascii_chars(s@));
            }
        }
        return None;
    }
    let b = s.as_bytes();
    proof {
        vstd::string::is_ascii_spec_bytes(s);
        is_ascii_chars_nat_bound(s@);
        assert forall|j: int| 0 <= j < s@.len() implies (#[trigger] b@[j]) as u32 == s@[j] as u32 by {
            assert(b@[j] == s@[j] as u8);
        }
    }
    if b.len() == 0 {
        return None;
    }
    let mut v: u64 = 0;
    let mut i: usize = 0;
    while i < b.len()
        invariant
            0 <= i <= b@.len(),
            b@.len() == s@.len(),
            forall|j: int| 0 <= j < s@.len() ==> (#[trigger] b@[j]) == s@[j] as u8,
            forall|j: int| 0 <= j < s@.len() ==> (#[trigger] s@[j] as nat) < 128,
            forall|j: int| 0 <= j < i ==> is_digit(#[trigger] s@[j]),
            v as nat == digits_value(s@.subrange(0, i as int)),
        decreases b@.len() - i,
    {
        let c = b[i];
        proof {
            lemma_ascii_byte(s@[i as int], c);
        }
        if c < 48 || c > 57 {
            assert(!is_digit(s@[i as int]));
            return None;
        }
        assert(is_digit(s@[i as int]));
        let d: u64 = (c - 48) as u64;
        assert(s@.subrange(0, i + 1).drop_last() =~= s@.subrange(0, i as int));
        assert(d as nat == (s@[i as int] as nat) - ('0' as nat));
        assert(digits_value(s@.subrange(0, i + 1)) == v as nat * 10 + d as nat);
        if v > (u64::MAX - d) / 10 {
            proof {
                assert(v as nat * 10 + d as nat > u64::MAX as nat) by (nonlinear_arith)
                    requires
                        v > (u64::MAX - d) / 10,
                        d <= 9,
                ;
                if decimal_of(s@) is Some {
                    lemma_digits_value_grows(s@, i + 1);
                    assert(s@.subrange(0, s@.len() as int) =~= s@);
                }
            }
            return None;
        }
        assert(v as nat * 10 + d as nat <= u64::MAX as nat) by (nonlinear_arith)
            requires
                v <= (u64::MAX - d) / 10,
                d <= 9,
        ;
        v = v * 10 + d;
        i += 1;
    }
    assert(s@.subrange(0, i as int) =~= s@);
    Some(v)
}


/// Reads a decimal number of at most `u32::MAX`.
pub fn parse_u32(s: &str) -> (r: Option<u32>)
    ensures
        r matches Some(v) ==> bounded_decimal(s@, u32::MAX as nat) == Some(v as nat),
        r is None ==> bounded_decimal(s@, u32::MAX as nat) is None,
{
    match parse_u64(s) {
        Some(v) => if v <= u32::MAX as u64 { Some(v as u32) } else { None },
        None => None,
    }
}

/// Reads a decimal number of at most `u16::MAX`.
pub fn parse_u16(s: &str) -> (r: Option<u16>)
    ensures
        r matches Some(v) ==> bounded_decimal(s@, u16::MAX as nat) == Some(v as nat),
        r is None ==> bounded_decimal(s@, u16::MAX as nat) is None,
{
    match parse_u64(s) {
        Some(v) => if v <= u16::MAX as u64 { Some(v as u16) } else { None },
        None => None,
    }
}

/// White space as XML defines it.
pub open spec fn is_xml_space(c: char) -> bool {
    c == ' ' || c == '\t' || c == '\n' || c == '\r'
}

/// Text made of white space alone (the empty text too).
pub open spec fn is_blank(s: Seq<char>) -> bool {
    forall|i: int| 0 <= i < s.len() ==> is_xml_space(#[trigger] s[i])
}

proof fn lemma_space_is_ascii(c: char)
    requires
        is_xml_space(c),
    ensures
        '\0' <= c && c <= '\u{7f}',
{
}

proof fn lemma_space_byte(c: char, b: u8)
    requires
        (c as nat) < 128,
        b == c as u8,
    ensures
        (b == 32 || b == 9 || b == 10 || b == 13) == is_xml_space(c),
{
}

/// Whether `s` holds white space alone.
pub fn blank(s: &str) -> (r: bool)
    ensures
        r == is_blank(s@),
{
    if !s.is_ascii() {
        proof {
            if is_blank(s@) {
                assert forall|i: int| 0 <= i < s@.len() implies '\0' <= s@[i] && s@[i] <= '\u{7f}' by {
                    lemma_space_is_ascii(s@[i]);
                }
                assert(is_ascii_chars(s@));
            }
        }
        return false;
    }
    let b = s.as_bytes();
    proof {
        vstd::string::is_ascii_spec_bytes(s);
        is_ascii_chars_nat_bound(s@);
    }
    let mut i: usize = 0;
    while i < b.len()
        invariant
            0 <= i <= b@.len(),
            b@.len() == s@.len(),
            forall|j: int| 0 <= j < s@.len() ==> (#[trigger] b@[j]) == s@[j] as u8,
            forall|j: int| 0 <= j < s@.len() ==> (#[trigger] s@[j] as nat) < 128,
            forall|j: int| 0 <= j < i ==> is_xml_space(#[trigger] s@[j]),
        decreases b@.len() - i,
    {
        let c = b[i];
        proof {
            lemma_space_byte(s@[i as int], c);
        }
        if !(c == 32 || c == 9 || c == 10 || c == 13) {
            return false;
        }
        i += 1;
    }
    true
}

/// Relies on `String::from_utf8`: the bytes become the string's own bytes
/// when they are UTF-8, and are refused otherwise.
#[verifier::external_body]
pub(crate) fn string_from_utf8(v: Vec<u8>) -> (r: Option<String>)
    ensures
        r is Some <==> valid_utf8(v@),
        r matches Some(s) ==> encode_utf8(s@) == v@,
{
    String::from_utf8(v).ok()
}

} // verus!
