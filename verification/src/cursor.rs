//! Codec between 128-bit cursors and their wire hex representation.
//!
//! The wire form of a cursor is its 16 big-endian bytes, hex-encoded.
//! Encoding always emits the canonical fixed-width form (32 hex digits).
//! Decoding is lenient: the server may trim leading zero bytes, so any
//! even-length hex string of at most 32 digits is accepted and read as a
//! big-endian integer, zero-extended on the most-significant side.

use vstd::prelude::*;

verus! {

use vstd::arithmetic::div_mod::lemma_basic_div;
use vstd::arithmetic::div_mod::lemma_div_denominator;
use vstd::arithmetic::div_mod::lemma_div_multiples_vanish;
use vstd::arithmetic::div_mod::lemma_fundamental_div_mod;
use vstd::string::StrSliceExecFns;
use vstd::string::StringExecFns;

use crate::error::SyncError;

/// `pow16(e)` is `16^e`: how many values `e` hex digits can carry, and the
/// weight of the digit standing `e` places before the last.
pub open spec fn pow16(e: nat) -> nat
    decreases e,
{
    if e == 0 {
        1
    } else {
        16 * pow16((e - 1) as nat)
    }
}

pub proof fn lemma_pow16_pos(e: nat)
    ensures
        pow16(e) >= 1,
    decreases e,
{
    if e > 0 {
        lemma_pow16_pos((e - 1) as nat);
    }
}

pub proof fn lemma_pow16_increases(e1: nat, e2: nat)
    requires
        e1 <= e2,
    ensures
        pow16(e1) <= pow16(e2),
    decreases e2,
{
    if e1 < e2 {
        lemma_pow16_increases(e1, (e2 - 1) as nat);
        lemma_pow16_pos((e2 - 1) as nat);
    }
}

/// `16^32` is one more than `u128::MAX`, and `16^31` is the weight of the
/// leading digit of a 32-digit hex string.
pub proof fn lemma_pow16_values()
    ensures
        pow16(31) == 0x10000000000000000000000000000000,
        pow16(32) == 0x100000000000000000000000000000000,
{
    reveal_with_fuel(pow16, 33);
}

/// The numeric value of a hex digit, or `-1` for every other character.
/// Both digit cases are accepted, as produced hex is lower-case but
/// received hex is not constrained.
pub open spec fn hex_digit_of(c: char) -> int {
    if c == '0' {
        0
    } else if c == '1' {
        1
    } else if c == '2' {
        2
    } else if c == '3' {
        3
    } else if c == '4' {
        4
    } else if c == '5' {
        5
    } else if c == '6' {
        6
    } else if c == '7' {
        7
    } else if c == '8' {
        8
    } else if c == '9' {
        9
    } else if c == 'a' || c == 'A' {
        10
    } else if c == 'b' || c == 'B' {
        11
    } else if c == 'c' || c == 'C' {
        12
    } else if c == 'd' || c == 'D' {
        13
    } else if c == 'e' || c == 'E' {
        14
    } else if c == 'f' || c == 'F' {
        15
    } else {
        -1
    }
}

pub open spec fn is_hex_char(c: char) -> bool {
    hex_digit_of(c) != -1
}

/// The lower-case hex digit for a value in `[0, 16)`.
pub open spec fn hex_char_of(d: int) -> char {
    if d == 0 {
        '0'
    } else if d == 1 {
        '1'
    } else if d == 2 {
        '2'
    } else if d == 3 {
        '3'
    } else if d == 4 {
        '4'
    } else if d == 5 {
        '5'
    } else if d == 6 {
        '6'
    } else if d == 7 {
        '7'
    } else if d == 8 {
        '8'
    } else if d == 9 {
        '9'
    } else if d == 10 {
        'a'
    } else if d == 11 {
        'b'
    } else if d == 12 {
        'c'
    } else if d == 13 {
        'd'
    } else if d == 14 {
        'e'
    } else {
        'f'
    }
}

/// Digit `i` (counting from the most significant, `0 <= i < 32`) of the
/// canonical 32-digit encoding of `v`.
pub open spec fn spec_nibble(v: u128, i: int) -> int {
    (v as int / pow16((31 - i) as nat) as int) % 16
}

/// The canonical wire form of a cursor: exactly 32 hex digits, big-endian,
/// lower-case, never trimmed.
pub open spec fn spec_encode(v: u128) -> Seq<char> {
    Seq::new(32, |i: int| hex_char_of(spec_nibble(v, i)))
}

/// A wire cursor the lenient decoder accepts: valid hex naming at most
/// 16 bytes. The empty string is allowed and decodes to zero.
pub open spec fn spec_hex_ok(s: Seq<char>) -> bool {
    &&& s.len() % 2 == 0
    &&& s.len() <= 32
    &&& forall|i: int| 0 <= i < s.len() ==> is_hex_char(s[i])
}

/// The big-endian integer value of a hex digit string.
pub open spec fn spec_hex_value(s: Seq<char>) -> int
    decreases s.len(),
{
    if s.len() == 0 {
        0
    } else {
        spec_hex_value(s.drop_last()) * 16 + hex_digit_of(s.last())
    }
}

/// A string of hex digits is bounded by the weight of one more digit.
pub proof fn lemma_hex_value_bound(s: Seq<char>)
    requires
        forall|i: int| 0 <= i < s.len() ==> is_hex_char(s[i]),
    ensures
        0 <= spec_hex_value(s) < pow16(s.len()),
    decreases s.len(),
{
    if s.len() > 0 {
        assert(forall|i: int| 0 <= i < s.drop_last().len() ==> is_hex_char(#[trigger] s.drop_last()[i]));
        lemma_hex_value_bound(s.drop_last());
        assert(0 <= hex_digit_of(s.last()) < 16);
    }
}

fn hex_digit_str(d: u8) -> (r: &'static str)
    requires
        d < 16,
    ensures
        r@.len() == 1,
        r@[0] == hex_char_of(d as int),
{
    proof {
        reveal_strlit("0");
        reveal_strlit("1");
        reveal_strlit("2");
        reveal_strlit("3");
        reveal_strlit("4");
        reveal_strlit("5");
        reveal_strlit("6");
        reveal_strlit("7");
        reveal_strlit("8");
        reveal_strlit("9");
        reveal_strlit("a");
        reveal_strlit("b");
        reveal_strlit("c");
        reveal_strlit("d");
        reveal_strlit("e");
        reveal_strlit("f");
    }
    if d == 0 {
        "0"
    } else if d == 1 {
        "1"
    } else if d == 2 {
        "2"
    } else if d == 3 {
        "3"
    } else if d == 4 {
        "4"
    } else if d == 5 {
        "5"
    } else if d == 6 {
        "6"
    } else if d == 7 {
        "7"
    } else if d == 8 {
        "8"
    } else if d == 9 {
        "9"
    } else if d == 10 {
        "a"
    } else if d == 11 {
        "b"
    } else if d == 12 {
        "c"
    } else if d == 13 {
        "d"
    } else if d == 14 {
        "e"
    } else {
        "f"
    }
}

fn hex_digit_val(c: char) -> (r: Option<u8>)
    ensures
        is_hex_char(c) ==> (r matches Some(d) && d as int == hex_digit_of(c)),
        !is_hex_char(c) ==> r is None,
{
    if c == '0' {
        Some(0)
    } else if c == '1' {
        Some(1)
    } else if c == '2' {
        Some(2)
    } else if c == '3' {
        Some(3)
    } else if c == '4' {
        Some(4)
    } else if c == '5' {
        Some(5)
    } else if c == '6' {
        Some(6)
    } else if c == '7' {
        Some(7)
    } else if c == '8' {
        Some(8)
    } else if c == '9' {
        Some(9)
    } else if c == 'a' || c == 'A' {
        Some(10)
    } else if c == 'b' || c == 'B' {
        Some(11)
    } else if c == 'c' || c == 'C' {
        Some(12)
    } else if c == 'd' || c == 'D' {
        Some(13)
    } else if c == 'e' || c == 'E' {
        Some(14)
    } else if c == 'f' || c == 'F' {
        Some(15)
    } else {
        None
    }
}

/// Serialize a cursor as exactly 16 big-endian bytes, hex-encoded:
/// 32 hex digits, fixed width, no trimming.
pub fn encode(v: u128) -> (r: String)
    ensures
        r@ == spec_encode(v),
{
    let mut r = String::new();
    let mut p: u128 = 0x10000000000000000000000000000000;
    let mut i: usize = 0;
    proof {
        lemma_pow16_values();
    }
    while i < 32
        invariant
            i <= 32,
            i < 32 ==> p as nat == pow16((31 - i) as nat),
            r@ =~= spec_encode(v).subrange(0, i as int),
        decreases 32 - i,
    {
        proof {
            lemma_pow16_pos((31 - i) as nat);
        }
        let d: u8 = ((v / p) % 16) as u8;
        assert(d as int == spec_nibble(v, i as int));
        let ds = hex_digit_str(d);
        r.append(ds);
        proof {
            assert(spec_encode(v)[i as int] == hex_char_of(spec_nibble(v, i as int)));
            assert(r@ =~= spec_encode(v).subrange(0, i as int + 1));
            if i < 31 {
                assert(pow16((31 - i) as nat) == 16 * pow16((30 - i) as nat));
                lemma_div_multiples_vanish(pow16((30 - i) as nat) as int, 16);
            }
        }
        p = p / 16;
        i = i + 1;
    }
    proof {
        assert(r@ =~= spec_encode(v));
    }
    r
}

/// Hex-decode a wire cursor leniently: accept any even-length hex string
/// of at most 32 digits and read it as a big-endian integer, zero-extended
/// on the most-significant side. Anything else is a `MalformedCursor`.
pub fn decode(s: &str) -> (r: Result<u128, SyncError>)
    ensures
        spec_hex_ok(s@) ==> (r matches Ok(c) && c as int == spec_hex_value(s@)),
        !spec_hex_ok(s@) ==> r == Err::<u128, SyncError>(SyncError::MalformedCursor),
{
    let n = s.unicode_len();
    if n % 2 != 0 || n > 32 {
        return Err(SyncError::MalformedCursor);
    }
    let mut acc: u128 = 0;
    let mut i: usize = 0;
    while i < n
        invariant
            n == s@.len(),
            n % 2 == 0,
            n <= 32,
            i <= n,
            forall|j: int| 0 <= j < i ==> is_hex_char(s@[j]),
            acc as int == spec_hex_value(s@.subrange(0, i as int)),
            (acc as nat) < pow16(i as nat),
        decreases n - i,
    {
        let ch = s.get_char(i);
        let d: u8 = match hex_digit_val(ch) {
            Some(d) => d,
            None => {
                return Err(SyncError::MalformedCursor);
            },
        };
        proof {
            lemma_pow16_increases((i + 1) as nat, 32);
            lemma_pow16_values();
            assert(s@.subrange(0, i as int + 1).drop_last() =~= s@.subrange(0, i as int));
            assert(s@.subrange(0, i as int + 1).last() == s@[i as int]);
        }
        acc = acc * 16 + d as u128;
        i = i + 1;
    }
    proof {
        assert(s@.subrange(0, n as int) =~= s@);
    }
    Ok(acc)
}

/// The value of the first `k` digits of the canonical encoding of `v` is
/// `v` shifted right by the remaining `32 - k` digits.
proof fn lemma_encode_prefix_value(v: u128, k: int)
    requires
        0 <= k <= 32,
    ensures
        spec_hex_value(spec_encode(v).subrange(0, k)) == v as int / pow16((32 - k) as nat) as int,
    decreases k,
{
    lemma_pow16_pos((32 - k) as nat);
    if k == 0 {
        lemma_pow16_values();
        lemma_basic_div(v as int, pow16(32) as int);
    } else {
        lemma_encode_prefix_value(v, k - 1);
        lemma_pow16_pos((32 - k + 1) as nat);
        let w = pow16((32 - k) as nat) as int;
        let q = v as int / w;
        assert(spec_encode(v).subrange(0, k).drop_last() =~= spec_encode(v).subrange(0, k - 1));
        assert(spec_encode(v).subrange(0, k).last() == spec_encode(v)[k - 1]);
        assert(spec_encode(v)[k - 1] == hex_char_of(spec_nibble(v, k - 1)));
        assert(0 <= spec_nibble(v, k - 1) < 16) by {
            vstd::arithmetic::div_mod::lemma_mod_bound(v as int / w, 16);
            vstd::arithmetic::div_mod::lemma_div_pos_is_pos(v as int, w);
        }
        assert(hex_digit_of(hex_char_of(spec_nibble(v, k - 1))) == spec_nibble(v, k - 1));
        assert(pow16((33 - k) as nat) == 16 * pow16((32 - k) as nat));
        lemma_div_denominator(v as int, w, 16);
        assert(v as int / pow16((33 - k) as nat) as int == q / 16);
        lemma_fundamental_div_mod(q, 16);
        assert((q / 16) * 16 + q % 16 == q);
    }
}

/// Round trip: the canonical encoding of any cursor is a wire cursor the
/// decoder accepts, and it decodes back to the same cursor.
pub proof fn lemma_encode_decode_round_trip(v: u128)
    ensures
        spec_hex_ok(spec_encode(v)),
        spec_hex_value(spec_encode(v)) == v as int,
{
    assert forall|i: int| 0 <= i < 32 implies is_hex_char(spec_encode(v)[i]) by {
        lemma_pow16_pos((31 - i) as nat);
        let w = pow16((31 - i) as nat) as int;
        vstd::arithmetic::div_mod::lemma_mod_bound(v as int / w, 16);
        vstd::arithmetic::div_mod::lemma_div_pos_is_pos(v as int, w);
        assert(0 <= spec_nibble(v, i) < 16);
    }
    lemma_encode_prefix_value(v, 32);
    assert(spec_encode(v).subrange(0, 32) =~= spec_encode(v));
    assert(pow16(0) == 1);
    vstd::arithmetic::div_mod::lemma_div_basics(v as int);
    assert(v as int / pow16(0) as int == v as int);
}

/// Prepending a zero digit does not change the value of a hex string.
proof fn lemma_hex_value_leading_zero(s: Seq<char>)
    ensures
        spec_hex_value(seq!['0'].add(s)) == spec_hex_value(s),
    decreases s.len(),
{
    let t = seq!['0'].add(s);
    assert(t.len() == s.len() + 1);
    if s.len() == 0 {
        assert(t.last() == '0');
        assert(t.drop_last() =~= Seq::<char>::empty());
        assert(spec_hex_value(t) == spec_hex_value(t.drop_last()) * 16 + hex_digit_of(t.last()));
        assert(spec_hex_value(t.drop_last()) == 0);
        assert(hex_digit_of('0') == 0);
        assert(spec_hex_value(t) == spec_hex_value(s));
    } else {
        lemma_hex_value_leading_zero(s.drop_last());
        assert(t.drop_last() =~= seq!['0'].add(s.drop_last()));
        assert(t.last() == s.last());
        assert(spec_hex_value(t) == spec_hex_value(t.drop_last()) * 16 + hex_digit_of(t.last()));
        assert(spec_hex_value(t.drop_last()) == spec_hex_value(s.drop_last()));
        assert(spec_hex_value(s) == spec_hex_value(s.drop_last()) * 16 + hex_digit_of(s.last()));
        assert(spec_hex_value(t) == spec_hex_value(s));
    }
    assert(spec_hex_value(seq!['0'].add(s)) == spec_hex_value(s));
}

/// Zero extension: a wire cursor may be zero-extended by a leading zero
/// byte (two zero digits) without changing the cursor it decodes to.
/// Read the other way round, trimming leading zero bytes from a wire
/// cursor preserves its value, which is why the lenient decode accepts
/// trimmed forms.
pub proof fn lemma_decode_zero_extension(s: Seq<char>)
    requires
        spec_hex_ok(s),
        s.len() <= 30,
    ensures
        spec_hex_ok(seq!['0', '0'].add(s)),
        spec_hex_value(seq!['0', '0'].add(s)) == spec_hex_value(s),
{
    let t = seq!['0', '0'].add(s);
    assert(t =~= seq!['0'].add(seq!['0'].add(s)));
    lemma_hex_value_leading_zero(seq!['0'].add(s));
    lemma_hex_value_leading_zero(s);
    assert(forall|i: int| 0 <= i < t.len() ==> is_hex_char(t[i]));
}

} // verus!
