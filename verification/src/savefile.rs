//! The save-record codec. A record is the byte string `{"total_pets":` N
//! `}` with N the lifetime pet count in canonical decimal (no leading
//! zero). Loading is lenient: anything else — a missing file included —
//! counts as zero pets.

use vstd::prelude::*;

verus! {

/// The bytes before the digits, `{"total_pets":`.
pub open spec fn record_prefix() -> Seq<u8> {
    seq![
        123u8,
        34u8,
        116u8,
        111u8,
        116u8,
        97u8,
        108u8,
        95u8,
        112u8,
        101u8,
        116u8,
        115u8,
        34u8,
        58u8,
    ]
}

/// The byte that closes the record, `}`.
pub const RECORD_END: u8 = 125;

/// Whether a byte is an ASCII decimal digit.
pub open spec fn is_digit(b: u8) -> bool {
    48 <= b <= 57
}

/// Whether every byte of a sequence is an ASCII decimal digit.
pub open spec fn all_digits(s: Seq<u8>) -> bool {
    forall|i: int| 0 <= i < s.len() ==> is_digit(#[trigger] s[i])
}

/// The canonical decimal digits of `n`, most significant first.
pub open spec fn dec_digits(n: nat) -> Seq<u8>
    decreases n,
{
    if n < 10 {
        seq![(48 + n) as u8]
    } else {
        dec_digits(n / 10).push((48 + n % 10) as u8)
    }
}

/// The number a digit sequence denotes, read most significant first.
pub open spec fn digits_value(s: Seq<u8>) -> int
    decreases s.len(),
{
    if s.len() == 0 {
        0
    } else {
        digits_value(s.drop_last()) * 10 + s.last() - 48
    }
}

/// Whether a digit sequence carries no redundant leading zero.
pub open spec fn canonical_digits(s: Seq<u8>) -> bool {
    s.len() == 1 || s[0] != 48
}

/// The encoded save record for a lifetime count.
pub open spec fn encoded_record(total_pets: u32) -> Seq<u8> {
    record_prefix() + dec_digits(total_pets as nat) + seq![RECORD_END]
}

/// What decoding a byte string yields: the count, where the bytes are
/// exactly a well-formed record whose count fits in 32 bits; nothing
/// otherwise.
pub open spec fn decoded_record(s: Seq<u8>) -> Option<u32> {
    let plen = record_prefix().len() as int;
    let digits = s.subrange(plen, s.len() - 1);
    if s.len() >= plen + 2 && s.subrange(0, plen) == record_prefix() && s.last() == RECORD_END
        && all_digits(digits) && canonical_digits(digits) && digits_value(digits) <= u32::MAX {
        Some(digits_value(digits) as u32)
    } else {
        None
    }
}

/// Canonical digits are never empty, are all digits, and carry no leading
/// zero beyond the single digit of numbers below ten.
proof fn lemma_dec_digits_wf(n: nat)
    ensures
        dec_digits(n).len() >= 1,
        all_digits(dec_digits(n)),
        n < 10 ==> dec_digits(n).len() == 1,
        n >= 10 ==> dec_digits(n)[0] != 48,
    decreases n,
{
    if n < 10 {
        assert(is_digit(dec_digits(n)[0]));
    } else {
        lemma_dec_digits_wf(n / 10);
        let head = dec_digits(n / 10);
        let d = (48 + n % 10) as u8;
        assert(is_digit(d));
        assert(dec_digits(n) == head.push(d));
        assert forall|i: int| 0 <= i < dec_digits(n).len() implies is_digit(
            #[trigger] dec_digits(n)[i],
        ) by {
            if i < head.len() {
                assert(dec_digits(n)[i] == head[i]);
            } else {
                assert(dec_digits(n)[i] == d);
            }
        }
        assert(dec_digits(n)[0] == head[0]);
        if n / 10 < 10 {
            assert(head[0] == (48 + n / 10) as u8);
            assert(n / 10 >= 1);
        }
    }
}

/// Reading back the canonical digits of `n` yields `n`.
proof fn lemma_digits_value_of_dec_digits(n: nat)
    ensures
        digits_value(dec_digits(n)) == n,
    decreases n,
{
    if n < 10 {
        let s = dec_digits(n);
        assert(s.len() == 1);
        assert(s.last() == (48 + n) as u8);
        assert(s.drop_last() =~= Seq::<u8>::empty());
        assert(digits_value(s.drop_last()) == 0);
        assert((48 + n) as u8 == 48 + n);
        assert(digits_value(s) == digits_value(s.drop_last()) * 10 + s.last() - 48);
    } else {
        lemma_digits_value_of_dec_digits(n / 10);
        let head = dec_digits(n / 10);
        let s = dec_digits(n);
        assert(s == head.push((48 + n % 10) as u8));
        assert(s.drop_last() =~= head);
        assert(s.last() == (48 + n % 10) as u8);
        assert(digits_value(s) == digits_value(head) * 10 + (48 + n % 10) - 48);
        assert(digits_value(s) == (n / 10) * 10 + n % 10);
    }
}

/// The value a digit sequence denotes never falls below zero.
proof fn lemma_digits_value_nonneg(s: Seq<u8>)
    requires
        all_digits(s),
    ensures
        digits_value(s) >= 0,
    decreases s.len(),
{
    if s.len() > 0 {
        assert(all_digits(s.drop_last())) by {
            assert(forall|i: int|
                0 <= i < s.drop_last().len() ==> s.drop_last()[i] == #[trigger] s[i]);
        }
        lemma_digits_value_nonneg(s.drop_last());
        assert(is_digit(s[s.len() - 1]));
    }
}

/// Extending a digit sequence never shrinks its value: every prefix of a
/// digit sequence denotes at most the whole.
proof fn lemma_digits_value_prefix_le(s: Seq<u8>, i: int)
    requires
        all_digits(s),
        0 <= i <= s.len(),
    ensures
        digits_value(s.subrange(0, i)) <= digits_value(s),
    decreases s.len() - i,
{
    if i == s.len() {
        assert(s.subrange(0, i) =~= s);
    } else {
        lemma_digits_value_prefix_le(s, i + 1);
        let shorter = s.subrange(0, i);
        let longer = s.subrange(0, i + 1);
        assert(longer.drop_last() =~= shorter);
        assert(longer.last() == s[i]);
        assert(is_digit(s[i]));
        assert(all_digits(shorter)) by {
            assert(forall|j: int| 0 <= j < shorter.len() ==> shorter[j] == #[trigger] s[j]);
        }
        lemma_digits_value_nonneg(shorter);
        assert(digits_value(longer) == digits_value(shorter) * 10 + s[i] - 48);
        assert(digits_value(shorter) * 10 >= digits_value(shorter));
    }
}

/// Decoding inverts encoding: the encoded record of any count decodes back
/// to exactly that count.
pub proof fn lemma_record_roundtrip(total_pets: u32)
    ensures
        decoded_record(encoded_record(total_pets)) == Some(total_pets),
{
    let n = total_pets as nat;
    let s = encoded_record(total_pets);
    let plen = record_prefix().len() as int;
    lemma_dec_digits_wf(n);
    lemma_digits_value_of_dec_digits(n);
    assert(s.len() == plen + dec_digits(n).len() + 1);
    assert(s.subrange(0, plen) =~= record_prefix());
    assert(s.last() == RECORD_END);
    assert(s.subrange(plen, s.len() - 1) =~= dec_digits(n));
}

/// Appends the canonical decimal digits of `n`.
fn push_decimal(n: u32, out: &mut Vec<u8>)
    ensures
        final(out)@ == old(out)@ + dec_digits(n as nat),
    decreases n,
{
    if n < 10 {
        out.push(48 + (n as u8));
        assert(out@ =~= old(out)@ + dec_digits(n as nat));
    } else {
        push_decimal(n / 10, out);
        out.push(48 + ((n % 10) as u8));
        assert(out@ =~= old(out)@ + dec_digits(n as nat));
    }
}

/// The record prefix as bytes.
fn record_prefix_bytes() -> (out: Vec<u8>)
    ensures
        out@ == record_prefix(),
{
    let mut out: Vec<u8> = Vec::new();
    out.push(123);
    out.push(34);
    out.push(116);
    out.push(111);
    out.push(116);
    out.push(97);
    out.push(108);
    out.push(95);
    out.push(112);
    out.push(101);
    out.push(116);
    out.push(115);
    out.push(34);
    out.push(58);
    assert(out@ =~= record_prefix());
    out
}

/// Builds the save record for a lifetime count.
pub fn encode_record(total_pets: u32) -> (out: Vec<u8>)
    ensures
        out@ == encoded_record(total_pets),
{
    let mut out = record_prefix_bytes();
    push_decimal(total_pets, &mut out);
    out.push(RECORD_END);
    assert(out@ =~= encoded_record(total_pets));
    out
}

/// Reads a save record back, yielding the count it carries; yields nothing
/// on anything that is not a well-formed record.
pub fn decode_record(bytes: &Vec<u8>) -> (r: Option<u32>)
    ensures
        r == decoded_record(bytes@),
{
    let ghost plen = record_prefix().len() as int;
    let pre = record_prefix_bytes();
    if bytes.len() < pre.len() + 2 {
        return None;
    }
    let mut i: usize = 0;
    while i < pre.len()
        invariant
            0 <= i <= pre@.len(),
            pre@ == record_prefix(),
            plen == record_prefix().len() as int,
            bytes@.len() >= pre@.len() + 2,
            forall|j: int| 0 <= j < i ==> bytes@[j] == pre@[j],
        decreases pre@.len() - i,
    {
        if bytes[i] != pre[i] {
            proof {
                assert(plen == 14) by {
                    assert(record_prefix().len() == 14);
                }
                assert(0 <= (i as int) && (i as int) < plen);
                assert(plen + 2 <= bytes@.len());
                assert(bytes@.subrange(0, plen)[i as int] == bytes@[i as int]);
            }
            return None;
        }
        i += 1;
    }
    proof {
        assert(bytes@.subrange(0, plen) =~= record_prefix());
    }
    let end = bytes.len() - 1;
    if bytes[end] != RECORD_END {
        return None;
    }
    let ghost digits = bytes@.subrange(plen, bytes@.len() - 1);
    if bytes[14] == 48 && end > 15 {
        proof {
            assert(digits[0] == bytes@[plen]);
            assert(digits.len() == end - plen);
        }
        return None;
    }
    let mut acc: u64 = 0;
    let mut k: usize = 14;
    while k < end
        invariant
            14 <= k <= end,
            end == bytes@.len() - 1,
            bytes@.len() >= 16,
            plen == 14,
            digits == bytes@.subrange(plen, bytes@.len() - 1),
            all_digits(bytes@.subrange(14, k as int)),
            acc == digits_value(bytes@.subrange(14, k as int)),
            acc <= u32::MAX,
        decreases end - k,
    {
        let b = bytes[k];
        if b < 48 || b > 57 {
            proof {
                assert(digits[k - plen] == bytes@[k as int]);
                assert(!is_digit(digits[k - plen]));
            }
            return None;
        }
        proof {
            let taken = bytes@.subrange(14, k as int);
            let extended = bytes@.subrange(14, k + 1);
            assert(extended.drop_last() =~= taken);
            assert(extended.last() == bytes@[k as int]);
            assert(forall|j: int|
                0 <= j < extended.len() ==> extended[j] == #[trigger] bytes@[14 + j]);
        }
        acc = acc * 10 + ((b - 48) as u64);
        if acc > u32::MAX as u64 {
            proof {
                let upto = bytes@.subrange(14, k + 1);
                if all_digits(digits) {
                    assert(forall|j: int| 0 <= j < upto.len() ==> upto[j] == #[trigger] digits[j]);
                    assert(upto =~= digits.subrange(0, k + 1 - plen));
                    lemma_digits_value_prefix_le(digits, k + 1 - plen);
                }
            }
            return None;
        }
        k += 1;
    }
    proof {
        assert(bytes@.subrange(14, end as int) =~= digits);
    }
    Some(acc as u32)
}

/// Lenient load: the count a stored record carries, or zero where there is
/// no record or the bytes are not a well-formed record.
pub fn recover_total_pets(content: Option<Vec<u8>>) -> (n: u32)
    ensures
        n == (match content {
            Option::Some(bytes) => match decoded_record(bytes@) {
                Option::Some(v) => v,
                Option::None => 0u32,
            },
            Option::None => 0u32,
        }),
{
    match content {
        Some(bytes) => match decode_record(&bytes) {
            Some(v) => v,
            None => 0,
        },
        None => 0,
    }
}

} // verus!
