//! Encodings used by administrative proposals: decimal ids and big-endian
//! words read from proposal data.
use vstd::prelude::*;

verus! {

/// The character of decimal digit `d`.
pub open spec fn digit_char(d: nat) -> char {
    if d == 0 { '0' }
    else if d == 1 { '1' }
    else if d == 2 { '2' }
    else if d == 3 { '3' }
    else if d == 4 { '4' }
    else if d == 5 { '5' }
    else if d == 6 { '6' }
    else if d == 7 { '7' }
    else if d == 8 { '8' }
    else { '9' }
}

/// The decimal notation of `n`, without leading zeros ("0" for zero).
pub open spec fn decimal(n: nat) -> Seq<char>
    decreases n,
{
    if n < 10 {
        seq![digit_char(n)]
    } else {
        decimal(n / 10).push(digit_char(n % 10))
    }
}

proof fn lemma_decimal_len(n: nat)
    ensures
        decimal(n).len() >= 1,
        n < 10 ==> decimal(n).len() == 1,
        n >= 10 ==> decimal(n).len() >= 2,
    decreases n,
{
    if n >= 10 {
        lemma_decimal_len(n / 10);
    }
}

proof fn lemma_digit_char_injective(a: nat, b: nat)
    requires
        a < 10,
        b < 10,
        digit_char(a) == digit_char(b),
    ensures
        a == b,
{
}

/// Different numbers have different decimal notations, so that ids made
/// from different counters differ.
pub proof fn lemma_decimal_injective(a: nat, b: nat)
    requires
        decimal(a) == decimal(b),
    ensures
        a == b,
    decreases a,
{
    lemma_decimal_len(a);
    lemma_decimal_len(b);
    if a < 10 {
        assert(decimal(a)[0] == digit_char(a));
        assert(decimal(b)[0] == digit_char(b));
        lemma_digit_char_injective(a, b);
    } else {
        assert(b >= 10);
        let da = decimal(a);
        assert(da.drop_last() =~= decimal(a / 10));
        assert(decimal(b).drop_last() =~= decimal(b / 10));
        lemma_decimal_injective(a / 10, b / 10);
        assert(da.last() == digit_char(a % 10));
        assert(decimal(b).last() == digit_char(b % 10));
        lemma_digit_char_injective(a % 10, b % 10);
        assert(a == (a / 10) * 10 + a % 10);
        assert(b == (b / 10) * 10 + b % 10);
    }
}

/// The one-character string of decimal digit `d`.
fn digit_str(d: u64) -> (r: &'static str)
    requires
        d < 10,
    ensures
        r@ == seq![digit_char(d as nat)],
{
    if d == 0 {
        proof { reveal_strlit("0"); }
        "0"
    } else if d == 1 {
        proof { reveal_strlit("1"); }
        "1"
    } else if d == 2 {
        proof { reveal_strlit("2"); }
        "2"
    } else if d == 3 {
        proof { reveal_strlit("3"); }
        "3"
    } else if d == 4 {
        proof { reveal_strlit("4"); }
        "4"
    } else if d == 5 {
        proof { reveal_strlit("5"); }
        "5"
    } else if d == 6 {
        proof { reveal_strlit("6"); }
        "6"
    } else if d == 7 {
        proof { reveal_strlit("7"); }
        "7"
    } else if d == 8 {
        proof { reveal_strlit("8"); }
        "8"
    } else {
        proof { reveal_strlit("9"); }
        "9"
    }
}

/// Appends the decimal notation of `n` to `s`.
fn push_decimal(s: &mut String, n: u64)
    ensures
        final(s)@ == old(s)@ + decimal(n as nat),
    decreases n,
{
    if n >= 10 {
        push_decimal(s, n / 10);
    }
    s.append(digit_str(n % 10));
    proof {
        assert(final(s)@ =~= old(s)@ + decimal(n as nat));
    }
}

/// The decimal notation of `n`: "0" for zero, otherwise its digits without
/// leading zeros.
pub fn u64_to_string(n: u64) -> (s: String)
    ensures
        s@ == decimal(n as nat),
{
    let mut s = String::new();
    push_decimal(&mut s, n);
    assert(s@ =~= decimal(n as nat));
    s
}

/// The byte at `i` of `data`, 0 past its end.
pub open spec fn byte_or_zero(data: Seq<u8>, i: int) -> u8 {
    if 0 <= i < data.len() { data[i] } else { 0 }
}

/// The big-endian value of the `k` bytes of `data` from `offset`, bytes past
/// the end of `data` counting as 0.
pub open spec fn be_value(data: Seq<u8>, offset: int, k: nat) -> nat
    decreases k,
{
    if k == 0 {
        0
    } else {
        be_value(data, offset, (k - 1) as nat) * 256 + byte_or_zero(data, offset + k - 1) as nat
    }
}

/// `256` to the power `k`.
pub open spec fn pow256(k: nat) -> nat
    decreases k,
{
    if k == 0 { 1 } else { pow256((k - 1) as nat) * 256 }
}

proof fn lemma_be_value_bound(data: Seq<u8>, offset: int, k: nat)
    ensures
        be_value(data, offset, k) < pow256(k),
    decreases k,
{
    if k > 0 {
        lemma_be_value_bound(data, offset, (k - 1) as nat);
    }
}

/// The 64-bit big-endian word of the 8 bytes of `data` from `offset`; bytes
/// past the end of `data` count as 0.
pub fn read_u64_from_bytes(data: &Vec<u8>, offset: u32) -> (r: u64)
    requires
        offset + 8 <= u32::MAX,
    ensures
        r == be_value(data@, offset as int, 8),
{
    let mut result: u64 = 0;
    let mut i: u32 = 0;
    while i < 8
        invariant
            0 <= i <= 8,
            offset + 8 <= u32::MAX,
            result == be_value(data@, offset as int, i as nat),
            result < pow256(i as nat),
        decreases 8 - i,
    {
        let idx = offset + i;
        let j = idx as usize;
        let byte: u64 = if j < data.len() {
            data[j] as u64
        } else {
            0
        };
        proof {
            assert(byte == byte_or_zero(data@, offset + i));
            lemma_be_value_bound(data@, offset as int, i as nat);
            assert(pow256(i as nat) <= pow256(7)) by {
                reveal_with_fuel(pow256, 8);
            }
            assert(pow256(7) == 0x100000000000000) by {
                reveal_with_fuel(pow256, 8);
            }
            assert(result < 0x100000000000000);
            assert(byte < 256);
            assert((result << 8u64) | byte == result * 256 + byte) by (bit_vector)
                requires
                    result < 0x100000000000000,
                    byte < 256,
            ;
        }
        result = (result << 8u64) | byte;
        i = i + 1;
    }
    result
}

} // verus!
