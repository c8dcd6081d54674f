//! Identifiers on the wire.
//!
//! Connections, members, challenges and correlation entries are identified by
//! 128-bit values.  On the wire such an identifier travels as the usual
//! hyphenated hexadecimal text (8-4-4-4-12 digits, most significant nibble
//! first); this module formats and parses that text and proves that parsing
//! undoes formatting.

use vstd::prelude::*;
use vstd::arithmetic::div_mod::{lemma_basic_div, lemma_div_denominator, lemma_fundamental_div_mod};
use vstd::string::StrSliceExecFns;

verus! {

pub assume_specification[ String::push ](s: &mut String, c: char)
    ensures
        final(s)@ == old(s)@.push(c),
;

/// 16 to the power `k`.
pub open spec fn p16(k: nat) -> int
    decreases k,
{
    if k == 0 {
        1
    } else {
        16 * p16((k - 1) as nat)
    }
}

pub proof fn lemma_p16_pos(k: nat)
    ensures
        p16(k) >= 1,
    decreases k,
{
    if k > 0 {
        lemma_p16_pos((k - 1) as nat);
    }
}

/// `p16(32)` is one past the largest 128-bit value.
pub proof fn lemma_p16_32()
    ensures
        p16(32) == 0x1_0000_0000_0000_0000_0000_0000_0000_0000,
{
    reveal_with_fuel(p16, 33);
    assert(p16(32) == 0x1_0000_0000_0000_0000_0000_0000_0000_0000);
}

/// The lowercase hexadecimal digit with value `d`.
pub open spec fn hex_char(d: int) -> char {
    if d == 0 {
        '0'
    } else if d == 1 {
        '1'
    } else if d == 2 {
        '2'
    } else if d == 3 {
        '3'
    } else if d == 4 {
        '4'
    } else if d == 5 {
        '5'
    } else if d == 6 {
        '6'
    } else if d == 7 {
        '7'
    } else if d == 8 {
        '8'
    } else if d == 9 {
        '9'
    } else if d == 10 {
        'a'
    } else if d == 11 {
        'b'
    } else if d == 12 {
        'c'
    } else if d == 13 {
        'd'
    } else if d == 14 {
        'e'
    } else {
        'f'
    }
}

/// The value of a hexadecimal digit, either case; -1 for any other character.
pub open spec fn hex_val(c: char) -> int {
    if c == '0' {
        0
    } else if c == '1' {
        1
    } else if c == '2' {
        2
    } else if c == '3' {
        3
    } else if c == '4' {
        4
    } else if c == '5' {
        5
    } else if c == '6' {
        6
    } else if c == '7' {
        7
    } else if c == '8' {
        8
    } else if c == '9' {
        9
    } else if c == 'a' || c == 'A' {
        10
    } else if c == 'b' || c == 'B' {
        11
    } else if c == 'c' || c == 'C' {
        12
    } else if c == 'd' || c == 'D' {
        13
    } else if c == 'e' || c == 'E' {
        14
    } else if c == 'f' || c == 'F' {
        15
    } else {
        -1
    }
}

/// Nibble `i` of `u`, counting from the most significant (`i` in 0..32).
pub open spec fn nib(u: u128, i: int) -> int {
    (u as int / p16((31 - i) as nat)) % 16
}

/// The four text positions that hold a hyphen.
pub open spec fn is_hyphen_pos(p: int) -> bool {
    p == 8 || p == 13 || p == 18 || p == 23
}

/// Which nibble the digit at text position `p` shows.
pub open spec fn nib_of_pos(p: int) -> int {
    if p < 8 {
        p
    } else if p < 13 {
        p - 1
    } else if p < 18 {
        p - 2
    } else if p < 23 {
        p - 3
    } else {
        p - 4
    }
}

/// How many digit (non-hyphen) positions lie strictly before position `p`.
pub open spec fn digits_before(p: int) -> int {
    if p <= 8 {
        p
    } else if p <= 13 {
        p - 1
    } else if p <= 18 {
        p - 2
    } else if p <= 23 {
        p - 3
    } else {
        p - 4
    }
}

/// The text position of digit `i` (`i` in 0..32).
pub open spec fn pos_of_nib(i: int) -> int {
    if i < 8 {
        i
    } else if i < 12 {
        i + 1
    } else if i < 16 {
        i + 2
    } else if i < 20 {
        i + 3
    } else {
        i + 4
    }
}

pub open spec fn uuid_char(u: u128, p: int) -> char {
    if is_hyphen_pos(p) {
        '-'
    } else {
        hex_char(nib(u, nib_of_pos(p)))
    }
}

/// The canonical text of `u`: 36 characters, 8-4-4-4-12 lowercase hex.
pub open spec fn uuid_seq(u: u128) -> Seq<char> {
    Seq::new(36, |p: int| uuid_char(u, p))
}

/// The 32 digit characters of a 36-character identifier text.
pub open spec fn uuid_digit_chars(s: Seq<char>) -> Seq<char> {
    Seq::new(32, |i: int| s[pos_of_nib(i)])
}

/// The value of the first `n` digits of `s`, most significant first.
pub open spec fn hex_prefix_val(s: Seq<char>, n: int) -> int
    decreases n,
{
    if n <= 0 {
        0
    } else {
        hex_prefix_val(s, n - 1) * 16 + hex_val(s[n - 1])
    }
}

/// What a 128-bit identifier's text parses to: defined exactly on 36-character
/// sequences with hyphens in the four fixed places and hexadecimal digits
/// (either case) everywhere else.
pub open spec fn parse_uuid_seq(s: Seq<char>) -> Option<u128> {
    if s.len() == 36 && (forall|p: int|
        0 <= p < 36 && is_hyphen_pos(p) ==> s[p] == '-') && (forall|i: int|
        0 <= i < 32 ==> hex_val(#[trigger] uuid_digit_chars(s)[i]) >= 0) {
        Some(hex_prefix_val(uuid_digit_chars(s), 32) as u128)
    } else {
        None
    }
}

fn hex_char_exec(d: u8) -> (c: char)
    requires
        d < 16,
    ensures
        c == hex_char(d as int),
{
    match d {
        0 => '0',
        1 => '1',
        2 => '2',
        3 => '3',
        4 => '4',
        5 => '5',
        6 => '6',
        7 => '7',
        8 => '8',
        9 => '9',
        10 => 'a',
        11 => 'b',
        12 => 'c',
        13 => 'd',
        14 => 'e',
        _ => 'f',
    }
}

fn hex_val_exec(c: char) -> (v: u8)
    ensures
        hex_val(c) >= 0 ==> v as int == hex_val(c),
        hex_val(c) < 0 ==> v == 255,
{
    match c {
        '0' => 0,
        '1' => 1,
        '2' => 2,
        '3' => 3,
        '4' => 4,
        '5' => 5,
        '6' => 6,
        '7' => 7,
        '8' => 8,
        '9' => 9,
        'a' | 'A' => 10,
        'b' | 'B' => 11,
        'c' | 'C' => 12,
        'd' | 'D' => 13,
        'e' | 'E' => 14,
        'f' | 'F' => 15,
        _ => 255,
    }
}

/// Format `u` as its canonical hyphenated lowercase text.
pub fn uuid_string(u: u128) -> (s: String)
    ensures
        s@ == uuid_seq(u),
{
    // Nibble values, least significant place first: digits[k] = (u / 16^k) % 16.
    let mut digits: Vec<u8> = Vec::new();
    let mut x = u;
    let mut k: usize = 0;
    while k < 32
        invariant
            k <= 32,
            digits@.len() == k,
            x as int == u as int / p16(k as nat),
            forall|j: int| 0 <= j < k ==> #[trigger] digits@[j] as int == (u as int / p16(j as nat)) % 16,
        decreases 32 - k,
    {
        let d = (x % 16) as u8;
        proof {
            lemma_p16_pos(k as nat);
            lemma_div_denominator(u as int, p16(k as nat), 16);
            assert(p16((k + 1) as nat) == p16(k as nat) * 16);
        }
        digits.push(d);
        x = x / 16;
        k = k + 1;
    }
    let mut s = String::new();
    let mut p: usize = 0;
    while p < 36
        invariant
            p <= 36,
            s@.len() == p,
            digits@.len() == 32,
            forall|j: int| 0 <= j < 32 ==> #[trigger] digits@[j] as int == (u as int / p16(j as nat)) % 16,
            forall|q: int| 0 <= q < p ==> s@[q] == uuid_char(u, q),
        decreases 36 - p,
    {
        if p == 8 || p == 13 || p == 18 || p == 23 {
            s.push('-');
        } else {
            let i: usize = if p < 8 {
                p
            } else if p < 13 {
                p - 1
            } else if p < 18 {
                p - 2
            } else if p < 23 {
                p - 3
            } else {
                p - 4
            };
            let d = digits[31 - i];
            s.push(hex_char_exec(d));
            assert(s@[p as int] == uuid_char(u, p as int));
        }
        p = p + 1;
    }
    proof {
        assert(s@ =~= uuid_seq(u));
    }
    s
}

/// Parse hyphenated hexadecimal identifier text; `None` on anything else.
pub fn parse_uuid(s: &str) -> (r: Option<u128>)
    ensures
        r == parse_uuid_seq(s@),
{
    let n = s.unicode_len();
    if n != 36 {
        return None;
    }
    let mut acc: u128 = 0;
    let mut p: usize = 0;
    let ghost ds = uuid_digit_chars(s@);
    while p < 36
        invariant
            p <= 36,
            s@.len() == 36,
            ds == uuid_digit_chars(s@),
            forall|q: int| 0 <= q < p && is_hyphen_pos(q) ==> s@[q] == '-',
            forall|i: int| 0 <= i < 32 && pos_of_nib(i) < p ==> hex_val(#[trigger] ds[i]) >= 0,
            acc as int == hex_prefix_val(ds, digits_before(p as int)),
            (acc as int) < p16(digits_before(p as int) as nat),
        decreases 36 - p,
    {
        let c = s.get_char(p);
        if p == 8 || p == 13 || p == 18 || p == 23 {
            if c != '-' {
                proof {
                    assert(is_hyphen_pos(p as int) && s@[p as int] != '-');
                }
                return None;
            }
        } else {
            let v = hex_val_exec(c);
            proof {
                let i = digits_before(p as int);
                assert(pos_of_nib(i) == p as int);
                assert(ds[i] == c);
            }
            if v == 255 {
                return None;
            }
            proof {
                let i = digits_before(p as int);
                lemma_p16_pos(i as nat);
                lemma_p16_32();
                lemma_p16_le(((i + 1) as nat), 32);
                assert(p16((i + 1) as nat) == 16 * p16(i as nat));
                assert(digits_before(p + 1) == i + 1);
            }
            acc = acc * 16 + (v as u128);
        }
        p = p + 1;
    }
    proof {
        assert(digits_before(36) == 32);
        assert(forall|i: int| 0 <= i < 32 ==> pos_of_nib(i) < 36);
        assert(parse_uuid_seq(s@) == Some(hex_prefix_val(ds, 32) as u128));
    }
    Some(acc)
}

pub proof fn lemma_p16_le(a: nat, b: nat)
    requires
        a <= b,
    ensures
        p16(a) <= p16(b),
    decreases b,
{
    if a < b {
        lemma_p16_le(a, (b - 1) as nat);
        lemma_p16_pos((b - 1) as nat);
    }
}

/// `hex_val` undoes `hex_char` on digit values.
pub proof fn lemma_hex_round_trip(d: int)
    requires
        0 <= d < 16,
    ensures
        hex_val(hex_char(d)) == d,
{
}

proof fn lemma_uuid_prefix(u: u128, n: int)
    requires
        0 <= n <= 32,
    ensures
        hex_prefix_val(uuid_digit_chars(uuid_seq(u)), n) == u as int / p16((32 - n) as nat),
    decreases n,
{
    let ds = uuid_digit_chars(uuid_seq(u));
    lemma_p16_32();
    if n == 0 {
        lemma_basic_div(u as int, p16(32));
    } else {
        lemma_uuid_prefix(u, n - 1);
        let i = n - 1;
        assert(ds[i] == uuid_char(u, pos_of_nib(i)));
        assert(!is_hyphen_pos(pos_of_nib(i)));
        assert(nib_of_pos(pos_of_nib(i)) == i);
        assert(ds[i] == hex_char(nib(u, i)));
        lemma_p16_pos((31 - i) as nat);
        assert(0 <= nib(u, i) < 16) by {
            lemma_p16_pos((31 - i) as nat);
        }
        lemma_hex_round_trip(nib(u, i));
        let x = u as int / p16((31 - i) as nat);
        lemma_div_denominator(u as int, p16((31 - i) as nat), 16);
        assert(p16((32 - i) as nat) == p16((31 - i) as nat) * 16);
        assert(u as int / p16((32 - n + 1) as nat) == x / 16);
        lemma_fundamental_div_mod(x, 16);
        assert(hex_prefix_val(ds, n) == (x / 16) * 16 + x % 16);
    }
}

/// Parsing the canonical text of an identifier yields the identifier back.
pub proof fn lemma_uuid_round_trip(u: u128)
    ensures
        parse_uuid_seq(uuid_seq(u)) == Some(u),
{
    let s = uuid_seq(u);
    let ds = uuid_digit_chars(s);
    assert forall|i: int| 0 <= i < 32 implies hex_val(#[trigger] ds[i]) >= 0 by {
        assert(ds[i] == uuid_char(u, pos_of_nib(i)));
        assert(nib_of_pos(pos_of_nib(i)) == i);
        lemma_p16_pos((31 - i) as nat);
        lemma_hex_round_trip(nib(u, i));
    }
    lemma_uuid_prefix(u, 32);
    assert(u as int / p16(0) == u as int);
}

/// The bytes of an ASCII-only character sequence, one byte per character.
pub open spec fn ascii_bytes(s: Seq<char>) -> Seq<u8> {
    Seq::new(s.len(), |i: int| s[i] as u8)
}

/// Identifier text is ASCII, so its UTF-8 bytes are its characters one for
/// one.
pub proof fn lemma_uuid_seq_ascii(u: u128)
    ensures
        vstd::utf8::is_ascii_chars(uuid_seq(u)),
        uuid_seq(u).len() == 36,
{
    assert forall|p: int| 0 <= p < uuid_seq(u).len() implies '\0' <= #[trigger] uuid_seq(u)[p]
        <= '\u{7f}' by {
        assert(uuid_seq(u)[p] == uuid_char(u, p));
    }
}

/// Relies on `uuid::Uuid::new_v4` (a freshly drawn random identifier) and
/// `Uuid::as_u128` (its 128-bit value).  Nothing is promised of the value.
#[verifier::external_body]
pub(crate) fn fresh_uuid() -> u128 {
    uuid::Uuid::new_v4().as_u128()
}

} // verus!
