//! String and number helpers used by the codec.
//!
//! The scalar conversions of the decode protocol (decimal integers and the
//! canonical boolean literals) and their inverses on the encode side are
//! defined here, each against an exact specification over character
//! sequences.

use vstd::prelude::*;
use vstd::string::*;

verus! {

/// Character-by-character equality of two string slices.
pub fn str_eq(a: &str, b: &str) -> (r: bool)
    ensures
        r == (a@ == b@),
{
    let la = a.unicode_len();
    let lb = b.unicode_len();
    if la != lb {
        return false;
    }
    let mut i: usize = 0;
    while i < la
        invariant
            i <= la,
            la == a@.len(),
            lb == b@.len(),
            la == lb,
            forall|j: int| 0 <= j < i ==> a@[j] == b@[j],
        decreases la - i,
    {
        if a.get_char(i) != b.get_char(i) {
            return false;
        }
        i += 1;
    }
    proof {
        assert(a@ =~= b@);
    }
    true
}

/// A whitespace character as XML counts it between elements.
pub open spec fn is_ws_char(c: char) -> bool {
    c == ' ' || c == '\t' || c == '\n' || c == '\r'
}

/// True when the text holds nothing but whitespace.
pub open spec fn ws_only(s: Seq<char>) -> bool {
    forall|i: int| 0 <= i < s.len() ==> is_ws_char(#[trigger] s[i])
}

/// Whitespace check for a string slice.
pub fn is_ws_str(t: &str) -> (r: bool)
    ensures
        r == ws_only(t@),
{
    let n = t.unicode_len();
    let mut i: usize = 0;
    while i < n
        invariant
            i <= n,
            n == t@.len(),
            forall|j: int| 0 <= j < i ==> is_ws_char(#[trigger] t@[j]),
        decreases n - i,
    {
        let c = t.get_char(i);
        if !(c == ' ' || c == '\t' || c == '\n' || c == '\r') {
            return false;
        }
        i += 1;
    }
    true
}

/// The decimal digit character for a value below ten.
pub open spec fn digit_char(d: int) -> char {
    if d == 0 { '0' }
    else if d == 1 { '1' }
    else if d == 2 { '2' }
    else if d == 3 { '3' }
    else if d == 4 { '4' }
    else if d == 5 { '5' }
    else if d == 6 { '6' }
    else if d == 7 { '7' }
    else if d == 8 { '8' }
    else { '9' }
}

/// True when the character is a decimal digit.
pub open spec fn is_digit(c: char) -> bool {
    '0' <= c && c <= '9'
}

/// The numeric value of a digit character.
pub open spec fn digit_val(c: char) -> int {
    (c as u32) as int - ('0' as u32) as int
}

/// True when every character of the text is a decimal digit.
pub open spec fn all_digits(s: Seq<char>) -> bool {
    forall|i: int| 0 <= i < s.len() ==> is_digit(#[trigger] s[i])
}

/// The value of a digit string read in base ten.
pub open spec fn digits_val(s: Seq<char>) -> int
    decreases s.len(),
{
    if s.len() == 0 {
        0
    } else {
        digits_val(s.drop_last()) * 10 + digit_val(s.last())
    }
}

/// The decimal digit string of a natural number, most significant first.
pub open spec fn dec_digits(n: nat) -> Seq<char>
    decreases n,
{
    if n < 10 {
        seq![digit_char(n as int)]
    } else {
        dec_digits(n / 10).push(digit_char((n % 10) as int))
    }
}

/// The decimal representation of an integer, with a leading minus sign when
/// negative.
pub open spec fn i32_dec(n: int) -> Seq<char> {
    if n < 0 {
        seq!['-'] + dec_digits((-n) as nat)
    } else {
        dec_digits(n as nat)
    }
}

/// What parsing a text as a 32-bit signed decimal integer yields: an
/// optional sign, then one or more digits, in the representable range;
/// anything else is rejected.
pub open spec fn parse_i32_spec(s: Seq<char>) -> Option<i32> {
    let signed = s.len() > 0 && (s[0] == '-' || s[0] == '+');
    let mag = if signed { s.skip(1) } else { s };
    if mag.len() > 0 && all_digits(mag) {
        let v = digits_val(mag);
        let sv = if signed && s[0] == '-' { -v } else { v };
        if i32::MIN <= sv <= i32::MAX {
            Some(sv as i32)
        } else {
            None
        }
    } else {
        None
    }
}

/// What parsing a text as a canonical boolean literal yields.
pub open spec fn parse_bool_spec(s: Seq<char>) -> Option<bool> {
    if s == "true"@ {
        Some(true)
    } else if s == "false"@ {
        Some(false)
    } else {
        None
    }
}

/// A digit string has a nonnegative value.
pub proof fn lemma_digits_val_nonneg(s: Seq<char>)
    requires
        all_digits(s),
    ensures
        digits_val(s) >= 0,
    decreases s.len(),
{
    if s.len() > 0 {
        assert(all_digits(s.drop_last())) by {
            assert(forall|i: int| 0 <= i < s.len() - 1 ==> s.drop_last()[i] == s[i]);
        }
        lemma_digits_val_nonneg(s.drop_last());
        assert(is_digit(s.last()));
    }
}

/// Dropping trailing digits never increases the value.
pub proof fn lemma_digits_val_prefix(s: Seq<char>, i: int)
    requires
        all_digits(s),
        0 <= i <= s.len(),
    ensures
        digits_val(s.subrange(0, i)) <= digits_val(s),
    decreases s.len() - i,
{
    if i == s.len() {
        assert(s.subrange(0, i) =~= s);
    } else {
        let t = s.subrange(0, s.len() - 1);
        assert(t =~= s.drop_last());
        assert(all_digits(t));
        lemma_digits_val_prefix(t, i);
        assert(t.subrange(0, i) =~= s.subrange(0, i));
        lemma_digits_val_nonneg(t);
        assert(is_digit(s.last()));
        assert(digits_val(s) == digits_val(t) * 10 + digit_val(s.last()));
    }
}

/// Parse a text as a 32-bit signed decimal integer.
pub fn parse_i32(t: &str) -> (r: Option<i32>)
    ensures
        r == parse_i32_spec(t@),
{
    let n = t.unicode_len();
    if n == 0 {
        return None;
    }
    let first = t.get_char(0);
    let signed = first == '-' || first == '+';
    let start: usize = if signed { 1 } else { 0 };
    let ghost mag = if signed { t@.skip(1) } else { t@ };
    proof {
        assert(mag =~= t@.subrange(start as int, n as int));
    }
    if start >= n {
        return None;
    }
    let mut acc: u64 = 0;
    let mut i: usize = start;
    while i < n
        invariant
            start <= i <= n,
            n == t@.len(),
            start <= 1,
            mag == t@.subrange(start as int, n as int),
            all_digits(t@.subrange(start as int, i as int)),
            acc == digits_val(t@.subrange(start as int, i as int)),
            acc <= 0x8000_0000,
        decreases n - i,
    {
        let c = t.get_char(i);
        if !(c >= '0' && c <= '9') {
            proof {
                assert(mag[i - start] == t@[i as int]);
                assert(!all_digits(mag));
            }
            return None;
        }
        let d: u64 = (c as u32 as u64) - 48;
        proof {
            assert(d == digit_val(c));
            assert(t@.subrange(start as int, i + 1 as int) =~= t@.subrange(
                start as int,
                i as int,
            ).push(t@[i as int]));
            assert(t@.subrange(start as int, i + 1 as int).drop_last() =~= t@.subrange(
                start as int,
                i as int,
            ));
        }
        acc = acc * 10 + d;
        i += 1;
        if acc > 0x8000_0000 {
            proof {
                let pre = t@.subrange(start as int, i as int);
                if all_digits(mag) {
                    lemma_digits_val_prefix(mag, i - start);
                    assert(mag.subrange(0, i - start) =~= pre);
                    lemma_digits_val_nonneg(mag);
                }
            }
            return None;
        }
    }
    proof {
        assert(t@.subrange(start as int, n as int) =~= mag);
    }
    if signed && first == '-' {
        if acc == 0x8000_0000 {
            Some(i32::MIN)
        } else {
            Some(-(acc as i32))
        }
    } else {
        if acc > 0x7fff_ffff {
            None
        } else {
            Some(acc as i32)
        }
    }
}

/// Parse a text as a canonical boolean literal.
pub fn parse_bool(t: &str) -> (r: Option<bool>)
    ensures
        r == parse_bool_spec(t@),
{
    if str_eq(t, "true") {
        Some(true)
    } else if str_eq(t, "false") {
        Some(false)
    } else {
        None
    }
}

/// The one-character string slice for a digit value.
fn digit_str(d: u32) -> (r: &'static str)
    requires
        d < 10,
    ensures
        r@ == seq![digit_char(d as int)],
{
    let r: &'static str = if d == 0 { "0" }
    else if d == 1 { "1" }
    else if d == 2 { "2" }
    else if d == 3 { "3" }
    else if d == 4 { "4" }
    else if d == 5 { "5" }
    else if d == 6 { "6" }
    else if d == 7 { "7" }
    else if d == 8 { "8" }
    else { "9" };
    proof {
        reveal_strlit("0");
        reveal_strlit("1");
        reveal_strlit("2");
        reveal_strlit("3");
        reveal_strlit("4");
        reveal_strlit("5");
        reveal_strlit("6");
        reveal_strlit("7");
        reveal_strlit("8");
        reveal_strlit("9");
        assert(r@ =~= seq![digit_char(d as int)]);
    }
    r
}

/// Write a natural number in decimal.
pub fn u64_to_string(n: u64) -> (r: String)
    ensures
        r@ == dec_digits(n as nat),
    decreases n,
{
    if n < 10 {
        String::from_str(digit_str(n as u32))
    } else {
        let mut s = u64_to_string(n / 10);
        s.append(digit_str((n % 10) as u32));
        proof {
            assert(s@ =~= dec_digits((n / 10) as nat).push(digit_char((n % 10) as int)));
        }
        s
    }
}

/// Write a 32-bit signed integer in decimal.
pub fn i32_to_string(n: i32) -> (r: String)
    ensures
        r@ == i32_dec(n as int),
{
    if n >= 0 {
        u64_to_string(n as u64)
    } else {
        let mag: u32 = if n == i32::MIN {
            0x8000_0000
        } else {
            (-n) as u32
        };
        let mut s = String::from_str("-");
        let digits = u64_to_string(mag as u64);
        s.append(digits.as_str());
        proof {
            reveal_strlit("-");
            assert(s@ =~= seq!['-'] + dec_digits(mag as nat));
        }
        s
    }
}

/// Printing an integer in decimal and parsing the result gives the integer
/// back.
pub proof fn lemma_i32_round_trip(n: i32)
    ensures
        parse_i32_spec(i32_dec(n as int)) == Some(n),
{
    if n >= 0 {
        lemma_dec_digits_shape(n as nat);
        let s = dec_digits(n as nat);
        assert(s[0] != '-' && s[0] != '+');
        assert(parse_i32_spec(s) == Some(n));
    } else {
        let mag = (-(n as int)) as nat;
        lemma_dec_digits_shape(mag);
        let s = seq!['-'] + dec_digits(mag);
        assert(s[0] == '-');
        assert(s.skip(1) =~= dec_digits(mag));
        assert(parse_i32_spec(s) == Some(n));
    }
}

/// The decimal digit string of a natural number is nonempty, made of
/// digits only, and reads back as that number.
pub proof fn lemma_dec_digits_shape(n: nat)
    ensures
        dec_digits(n).len() >= 1,
        all_digits(dec_digits(n)),
        is_digit(dec_digits(n)[0]),
        digits_val(dec_digits(n)) == n,
    decreases n,
{
    if n < 10 {
        assert(is_digit(digit_char(n as int)));
        assert(dec_digits(n) == seq![digit_char(n as int)]);
        assert(dec_digits(n).drop_last() =~= Seq::<char>::empty());
        assert(dec_digits(n).last() == digit_char(n as int));
        assert(digit_val(digit_char(n as int)) == n);
        assert(digits_val(Seq::<char>::empty()) == 0);
        assert(digits_val(dec_digits(n)) == digits_val(dec_digits(n).drop_last()) * 10
            + digit_val(dec_digits(n).last()));
    } else {
        lemma_dec_digits_shape(n / 10);
        let p = dec_digits(n / 10);
        let c = digit_char((n % 10) as int);
        assert(is_digit(c));
        assert(digit_val(c) == n % 10);
        assert(p.push(c).drop_last() =~= p);
        assert(p.push(c).last() == c);
        assert(forall|i: int| 0 <= i < p.push(c).len() ==> is_digit(#[trigger] p.push(c)[i]));
        assert(digits_val(p.push(c)) == digits_val(p) * 10 + digit_val(c));
        assert(digits_val(p) * 10 + n % 10 == n) by {
            assert(digits_val(p) == n / 10);
        }
    }
}

} // verus!
