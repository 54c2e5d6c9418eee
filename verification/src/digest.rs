//! SHA-256 digests.
use sha2::Digest;
use vstd::prelude::*;

verus! {

/// The SHA-256 digest of a row of bytes, as [`sha2::Sha256`] computes it.
pub uninterp spec fn sha256(data: Seq<u8>) -> Seq<u8>;

/// [`sha2::Sha256::digest`]: the SHA-256 digest of the bytes.
#[verifier::external_body]
pub(crate) fn sha256_digest(data: &[u8]) -> (digest: [u8; 32])
    ensures
        digest@ == sha256(data@),
{
    sha2::Sha256::digest(data).into()
}

/// The sixteen hexadecimal digits.
pub const HEX_DIGITS: &'static str = "0123456789abcdef";

/// Bytes in hexadecimal: two digits for each, the high one first.
pub open spec fn hex_text(bytes: Seq<u8>) -> Seq<char>
    decreases bytes.len(),
{
    if bytes.len() == 0 {
        Seq::empty()
    } else {
        hex_text(bytes.drop_last()).push(HEX_DIGITS@[bytes.last() as int / 16]).push(
            HEX_DIGITS@[bytes.last() as int % 16],
        )
    }
}

/// Writes bytes in hexadecimal.
pub fn hex(bytes: &[u8]) -> (text: String)
    ensures
        text@ == hex_text(bytes@),
{
    let mut text: String = String::new();
    let mut index: usize = 0;
    proof {
        reveal_strlit("0123456789abcdef");
        assert(text@ =~= Seq::<char>::empty());
        assert(bytes@.take(0).len() == 0);
    }
    while index < bytes.len()
        invariant
            index <= bytes@.len(),
            HEX_DIGITS@.len() == 16,
            text@ == hex_text(bytes@.take(index as int)),
        decreases bytes.len() - index,
    {
        let byte: u8 = bytes[index];
        let high: usize = (byte / 16) as usize;
        let low: usize = (byte % 16) as usize;
        let ghost before = text@;
        text.append(HEX_DIGITS.substring_char(high, high + 1));
        text.append(HEX_DIGITS.substring_char(low, low + 1));
        proof {
            assert(bytes@.take(index + 1).drop_last() =~= bytes@.take(index as int));
            assert(bytes@.take(index + 1).last() == byte);
            assert(text@ =~= before.push(HEX_DIGITS@[high as int]).push(HEX_DIGITS@[low as int]));
        }
        index = index + 1;
    }
    proof {
        assert(bytes@.take(index as int) =~= bytes@);
    }
    text
}

proof fn hex_text_length(bytes: Seq<u8>)
    ensures
        hex_text(bytes).len() == 2 * bytes.len(),
    decreases bytes.len(),
{
    if bytes.len() > 0 {
        hex_text_length(bytes.drop_last());
    }
}

/// Different bytes are written differently.
pub proof fn hex_text_is_injective(one: Seq<u8>, other: Seq<u8>)
    requires
        hex_text(one) == hex_text(other),
    ensures
        one == other,
    decreases one.len(),
{
    hex_text_length(one);
    hex_text_length(other);
    if one.len() > 0 {
        reveal_strlit("0123456789abcdef");
        let left = hex_text(one);
        let right = hex_text(other);
        let n = left.len() as int;
        hex_text_length(one.drop_last());
        hex_text_length(other.drop_last());
        assert(left.take(n - 2) =~= hex_text(one.drop_last()));
        assert(right.take(n - 2) =~= hex_text(other.drop_last()));
        hex_text_is_injective(one.drop_last(), other.drop_last());
        assert(left[n - 1] == HEX_DIGITS@[one.last() as int % 16]);
        assert(right[n - 1] == HEX_DIGITS@[other.last() as int % 16]);
        assert(left[n - 2] == HEX_DIGITS@[one.last() as int / 16]);
        assert(right[n - 2] == HEX_DIGITS@[other.last() as int / 16]);
        digits_differ(one.last() as int % 16, other.last() as int % 16);
        digits_differ(one.last() as int / 16, other.last() as int / 16);
        assert(one =~= one.drop_last().push(one.last()));
        assert(other =~= other.drop_last().push(other.last()));
    } else {
        assert(one =~= other);
    }
}

proof fn digits_differ(i: int, j: int)
    requires
        0 <= i < 16,
        0 <= j < 16,
        HEX_DIGITS@[i] == HEX_DIGITS@[j],
    ensures
        i == j,
{
    reveal_strlit("0123456789abcdef");
    assert(HEX_DIGITS@ =~= seq![
        '0',
        '1',
        '2',
        '3',
        '4',
        '5',
        '6',
        '7',
        '8',
        '9',
        'a',
        'b',
        'c',
        'd',
        'e',
        'f',
    ]);
}

/// The character of a hexadecimal digit: `0` to `9`, then `a` to `f`.
pub open spec fn is_digit_for(c: char, value: int) -> bool {
    if value < 10 {
        c as int == 48 + value
    } else {
        c as int == 87 + value
    }
}

/// Each byte is written as two digits, that of its sixteens before that of its ones, at twice its
/// place.
pub proof fn bytes_are_written_in_order(bytes: Seq<u8>, i: int)
    requires
        0 <= i < bytes.len(),
    ensures
        hex_text(bytes).len() == 2 * bytes.len(),
        is_digit_for(hex_text(bytes)[2 * i], bytes[i] as int / 16),
        is_digit_for(hex_text(bytes)[2 * i + 1], bytes[i] as int % 16),
    decreases bytes.len(),
{
    hex_text_length(bytes);
    hex_text_length(bytes.drop_last());
    if i < bytes.len() - 1 {
        bytes_are_written_in_order(bytes.drop_last(), i);
    } else {
        digits_are_in_order(bytes[i] as int / 16);
        digits_are_in_order(bytes[i] as int % 16);
    }
}

proof fn digits_are_in_order(i: int)
    requires
        0 <= i < 16,
    ensures
        is_digit_for(HEX_DIGITS@[i], i),
{
    reveal_strlit("0123456789abcdef");
    assert(HEX_DIGITS@ =~= seq![
        '0',
        '1',
        '2',
        '3',
        '4',
        '5',
        '6',
        '7',
        '8',
        '9',
        'a',
        'b',
        'c',
        'd',
        'e',
        'f',
    ]);
}

} // verus!
