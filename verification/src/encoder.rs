//! Decimal encoding of an unsigned sample: the digits are extracted least
//! significant first by repeated division, then reversed in place, so that
//! the buffer holds the usual reading order with no leading zeros.

use vstd::prelude::*;

verus! {

/// The decimal ASCII digits of `v`, most significant first.
/// Zero encodes as the single byte `b'0'`.
pub open spec fn digits_of(v: nat) -> Seq<u8>
    decreases v,
{
    if v < 10 {
        seq![(48 + v) as u8]
    } else {
        digits_of(v / 10).push((48 + v % 10) as u8)
    }
}

/// The number denoted by a sequence of decimal ASCII digit bytes.
pub open spec fn decimal_value(s: Seq<u8>) -> int
    decreases s.len(),
{
    if s.len() == 0 {
        0
    } else {
        decimal_value(s.drop_last()) * 10 + (s.last() - 48)
    }
}

pub open spec fn is_ascii_digit(b: u8) -> bool {
    48 <= b <= 57
}

pub open spec fn pow10(n: nat) -> nat
    decreases n,
{
    if n == 0 {
        1
    } else {
        10 * pow10((n - 1) as nat)
    }
}

/// Reading the digit sequence of `v` back as a decimal number gives `v`.
pub proof fn lemma_digits_value(v: nat)
    ensures
        decimal_value(digits_of(v)) == v,
    decreases v,
{
    if v < 10 {
        assert(digits_of(v) == seq![(48 + v) as u8]);
        assert(digits_of(v).last() == (48 + v) as u8);
        assert(digits_of(v).drop_last() =~= Seq::<u8>::empty());
        assert(decimal_value(Seq::<u8>::empty()) == 0);
        assert(decimal_value(digits_of(v)) == 0 * 10 + ((48 + v) as u8 - 48));
    } else {
        lemma_digits_value(v / 10);
        assert(digits_of(v) == digits_of(v / 10).push((48 + v % 10) as u8));
        assert(digits_of(v).last() == (48 + v % 10) as u8);
        assert(digits_of(v).drop_last() =~= digits_of(v / 10));
        assert(decimal_value(digits_of(v))
            == decimal_value(digits_of(v / 10)) * 10 + ((48 + v % 10) as u8 - 48));
        vstd::arithmetic::div_mod::lemma_fundamental_div_mod(v as int, 10);
    }
}

/// Every byte of a digit sequence is an ASCII decimal digit.
pub proof fn lemma_digits_are_ascii(v: nat)
    ensures
        forall|i: int|
            0 <= i < digits_of(v).len() ==> is_ascii_digit(#[trigger] digits_of(v)[i]),
    decreases v,
{
    if v < 10 {
        assert(digits_of(v) == seq![(48 + v) as u8]);
        assert(digits_of(v)[0] == (48 + v) as u8);
    } else {
        lemma_digits_are_ascii(v / 10);
        let rest = digits_of(v / 10);
        assert(digits_of(v) == rest.push((48 + v % 10) as u8));
        assert(forall|i: int| 0 <= i < rest.len() ==> digits_of(v)[i] == #[trigger] rest[i]);
        assert(digits_of(v)[rest.len() as int] == (48 + v % 10) as u8);
    }
}

/// A value below `pow10(n)` has at least one and at most `n` digits.
pub proof fn lemma_digits_len(v: nat, n: nat)
    requires
        n >= 1,
        v < pow10(n),
    ensures
        1 <= digits_of(v).len() <= n,
    decreases v,
{
    if v >= 10 {
        assert(pow10(1) == 10 * pow10(0));
        if n == 1 {
            assert(false);
        }
        assert(pow10(n) == 10 * pow10((n - 1) as nat));
        vstd::arithmetic::div_mod::lemma_multiply_divide_lt(
            v as int,
            pow10((n - 1) as nat) as int,
            10,
        );
        lemma_digits_len(v / 10, (n - 1) as nat);
    }
}

/// A positive value never has a leading zero digit.
pub proof fn lemma_digits_no_leading_zero(v: nat)
    requires
        v >= 1,
    ensures
        digits_of(v)[0] != 48,
    decreases v,
{
    if v >= 10 {
        vstd::arithmetic::div_mod::lemma_div_non_zero(v as int, 10);
        lemma_digits_no_leading_zero(v / 10);
        assert(digits_of(v / 10).len() >= 1);
    }
}

/// Distinct values have distinct digit sequences: the encoding loses nothing.
pub proof fn lemma_digits_injective(v1: nat, v2: nat)
    requires
        digits_of(v1) == digits_of(v2),
    ensures
        v1 == v2,
{
    lemma_digits_value(v1);
    lemma_digits_value(v2);
}

/// Encoding is a pure function of the value: any two buffers that satisfy
/// the contract of `int_to_ascii` for the same input agree on the reported
/// length and on every written byte.
pub proof fn lemma_encode_pure(v: u16, len1: usize, b1: Seq<u8>, len2: usize, b2: Seq<u8>)
    requires
        len1 <= b1.len(),
        len2 <= b2.len(),
        b1.subrange(0, len1 as int) == digits_of(v as nat),
        b2.subrange(0, len2 as int) == digits_of(v as nat),
    ensures
        len1 == len2,
        b1.subrange(0, len1 as int) == b2.subrange(0, len2 as int),
{
    assert(b1.subrange(0, len1 as int).len() == len1);
    assert(b2.subrange(0, len2 as int).len() == len2);
}

/// Converts `number` to its decimal ASCII representation.
///
/// The first `length` bytes of `buffer` hold the digits in reading order;
/// the remaining bytes are left exactly as they were. The buffer is sized
/// for the largest possible digit count of a 16-bit value, so encoding
/// cannot overflow it.
pub fn int_to_ascii(number: u16, buffer: &mut [u8; 5]) -> (length: usize)
    ensures
        1 <= length <= 5,
        final(buffer)@.subrange(0, length as int) == digits_of(number as nat),
        forall|i: int| length <= i < 5 ==> final(buffer)@[i] == old(buffer)@[i],
        decimal_value(digits_of(number as nat)) == number as int,
{
    let ghost orig = buffer@;
    let mut n: u16 = number;
    let mut index: usize = 0;

    proof {
        reveal_with_fuel(pow10, 6);
        lemma_digits_len(number as nat, 5);
    }

    // Extract digits in reverse order
    while n > 0 || index == 0
        invariant
            index <= 5,
            number < pow10(5),
            digits_of(number as nat).len() <= 5,
            n > 0 ==> digits_of(number as nat) == digits_of(n as nat)
                + buffer@.subrange(0, index as int).reverse(),
            n == 0 && index > 0 ==> digits_of(number as nat)
                == buffer@.subrange(0, index as int).reverse(),
            n == 0 && index == 0 ==> number == 0,
            forall|i: int| index <= i < 5 ==> buffer@[i] == orig[i],
        decreases n, 5 - index,
    {
        proof {
            if n > 0 {
                assert(digits_of(n as nat).len() >= 1);
                assert(digits_of(number as nat).len()
                    == digits_of(n as nat).len() + index);
            }
        }
        let ghost pre = buffer@;
        let d: u8 = 48 + (n % 10) as u8;
        buffer[index] = d;
        proof {
            assert(buffer@.subrange(0, (index + 1) as int)
                =~= pre.subrange(0, index as int).push(d));
            assert(pre.subrange(0, index as int).push(d).reverse()
                =~= seq![d] + pre.subrange(0, index as int).reverse());
            if n >= 10 {
                assert(digits_of(n as nat)
                    == digits_of(n as nat / 10).push((48 + n as nat % 10) as u8));
                assert(digits_of(n as nat) + pre.subrange(0, index as int).reverse()
                    =~= digits_of(n as nat / 10)
                        + (seq![d] + pre.subrange(0, index as int).reverse()));
            } else if n > 0 {
                vstd::arithmetic::div_mod::lemma_basic_div(n as int, 10);
                assert(digits_of(n as nat) =~= seq![d]);
                assert(digits_of(n as nat) + pre.subrange(0, index as int).reverse()
                    =~= seq![d] + pre.subrange(0, index as int).reverse());
            } else {
                assert(digits_of(0) =~= seq![48u8]);
                assert(seq![d] + pre.subrange(0, 0).reverse() =~= seq![48u8]);
            }
        }
        n = n / 10;
        index = index + 1;
    }

    let ghost collected = buffer@;
    assert(digits_of(number as nat) == collected.subrange(0, index as int).reverse());

    // Reverse the order of digits in the buffer
    let mut lo: usize = 0;
    let mut hi: usize = index - 1;
    while lo < hi
        invariant
            1 <= index <= 5,
            lo + hi == index - 1,
            hi < index,
            forall|i: int| 0 <= i < lo ==> buffer@[i] == collected[index - 1 - i],
            forall|i: int| hi < i < index ==> buffer@[i] == collected[index - 1 - i],
            forall|i: int| lo <= i <= hi ==> buffer@[i] == collected[i],
            forall|i: int| index <= i < 5 ==> buffer@[i] == collected[i],
        decreases hi + 1 - lo,
    {
        let a = buffer[lo];
        let b = buffer[hi];
        buffer[lo] = b;
        buffer[hi] = a;
        lo = lo + 1;
        hi = hi - 1;
    }

    proof {
        assert(forall|i: int| 0 <= i < index ==> buffer@[i] == collected[index - 1 - i]);
        assert(buffer@.subrange(0, index as int)
            =~= collected.subrange(0, index as int).reverse());
        assert(forall|i: int| index <= i < 5 ==> buffer@[i] == orig[i]);
        lemma_digits_value(number as nat);
    }

    index
}

} // verus!
