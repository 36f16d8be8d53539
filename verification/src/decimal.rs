//! The decimal form of the cached count.
//!
//! The cache backend stores byte strings, so the count crosses that
//! boundary in decimal notation: an optional sign followed by digits.
//! `parse_count` decides exactly which byte strings are a count in
//! range, and `format_count` writes one; the round-trip law ties the
//! two together.

use vstd::prelude::*;

verus! {

/// ASCII digit.
pub open spec fn is_digit(b: u8) -> bool {
    48 <= b <= 57
}

/// The numeric value of an ASCII digit.
pub open spec fn digit_value(b: u8) -> int {
    b as int - 48
}

/// Whether every byte is an ASCII digit.
pub open spec fn all_digits(s: Seq<u8>) -> bool {
    forall|i: int| 0 <= i < s.len() ==> is_digit(#[trigger] s[i])
}

/// The value of a digit string, most significant digit first.
pub open spec fn digits_value(s: Seq<u8>) -> int
    decreases s.len(),
{
    if s.len() == 0 {
        0
    } else {
        digits_value(s.drop_last()) * 10 + digit_value(s.last())
    }
}

/// Whether the byte string opens with an explicit sign (`-` or `+`).
pub open spec fn has_sign(s: Seq<u8>) -> bool {
    s.len() > 0 && (s[0] == 45 || s[0] == 43)
}

/// The byte string with any leading sign removed.
pub open spec fn unsigned_part(s: Seq<u8>) -> Seq<u8> {
    if has_sign(s) {
        s.skip(1)
    } else {
        s
    }
}

/// The sign the byte string denotes: negative only under a leading `-`.
pub open spec fn sign_of(s: Seq<u8>) -> int {
    if s.len() > 0 && s[0] == 45 {
        -1
    } else {
        1
    }
}

/// The integer a decimal byte string denotes.
pub open spec fn decimal_value(s: Seq<u8>) -> int {
    sign_of(s) * digits_value(unsigned_part(s))
}

/// Whether the byte string is a decimal integer that fits an `i64`: an
/// optional sign, then at least one digit and nothing else, denoting a
/// value in range.
pub open spec fn is_decimal_i64(s: Seq<u8>) -> bool {
    &&& unsigned_part(s).len() > 0
    &&& all_digits(unsigned_part(s))
    &&& i64::MIN <= decimal_value(s) <= i64::MAX
}

/// A digit string's value is never negative.
proof fn lemma_digits_value_nonneg(s: Seq<u8>)
    requires
        all_digits(s),
    ensures
        digits_value(s) >= 0,
    decreases s.len(),
{
    if s.len() > 0 {
        assert(all_digits(s.drop_last()));
        lemma_digits_value_nonneg(s.drop_last());
    }
}

/// Dropping trailing digits never increases a digit string's value.
proof fn lemma_digits_value_prefix_le(s: Seq<u8>, i: int)
    requires
        all_digits(s),
        0 <= i <= s.len(),
    ensures
        digits_value(s.take(i)) <= digits_value(s),
    decreases s.len(),
{
    if i == s.len() {
        assert(s.take(i) =~= s);
    } else {
        assert(all_digits(s.drop_last()));
        lemma_digits_value_nonneg(s.drop_last());
        lemma_digits_value_prefix_le(s.drop_last(), i);
        assert(s.drop_last().take(i) =~= s.take(i));
    }
}

/// Decide whether `raw` is a decimal integer in `i64` range, and when
/// it is, return its value. This is exactly the accessor's notion of a
/// stored value that "parses as an integer".
pub fn parse_count(raw: &Vec<u8>) -> (r: Option<i64>)
    ensures
        match r {
            Some(v) => is_decimal_i64(raw@) && v == decimal_value(raw@),
            None => !is_decimal_i64(raw@),
        },
{
    let n = raw.len();
    if n == 0 {
        return None;
    }
    let first = raw[0];
    let negative = first == 45;
    let start: usize = if first == 45 || first == 43 {
        1
    } else {
        0
    };
    if start == n {
        return None;
    }
    let ghost digits = raw@.skip(start as int);
    assert(digits =~= unsigned_part(raw@));

    let mut acc: u64 = 0;
    let mut i: usize = start;
    while i < n
        invariant
            start <= i <= n == raw@.len(),
            digits == raw@.skip(start as int),
            digits == unsigned_part(raw@),
            all_digits(raw@.subrange(start as int, i as int)),
            acc == digits_value(raw@.subrange(start as int, i as int)),
        decreases n - i,
    {
        let b = raw[i];
        let ghost seen = raw@.subrange(start as int, i as int);
        if b < 48 || b > 57 {
            assert(digits[i - start] == b);
            assert(!all_digits(digits));
            return None;
        }
        assert(raw@.subrange(start as int, i as int + 1) =~= seen.push(b));
        assert(seen.push(b).drop_last() =~= seen);
        assert(digits_value(seen.push(b)) == digits_value(seen) * 10 + digit_value(b));
        let shifted = match acc.checked_mul(10) {
            Some(s) => s,
            None => {
                proof {
                    overflow_means_out_of_range(raw@, digits, i as int, start as int, acc, b);
                }
                return None;
            },
        };
        let grown = match shifted.checked_add((b - 48) as u64) {
            Some(g) => g,
            None => {
                proof {
                    overflow_means_out_of_range(raw@, digits, i as int, start as int, acc, b);
                }
                return None;
            },
        };
        acc = grown;
        i += 1;
    }
    assert(raw@.subrange(start as int, n as int) =~= digits);

    if negative {
        if acc <= 0x7fff_ffff_ffff_ffff {
            Some(-(acc as i64))
        } else if acc == 0x8000_0000_0000_0000 {
            Some(i64::MIN)
        } else {
            None
        }
    } else {
        if acc <= 0x7fff_ffff_ffff_ffff {
            Some(acc as i64)
        } else {
            None
        }
    }
}

/// When appending one more digit overflows a `u64` accumulator, the
/// whole byte string denotes nothing in `i64` range.
proof fn overflow_means_out_of_range(raw: Seq<u8>, digits: Seq<u8>, i: int, start: int, acc: u64, b: u8)
    requires
        digits == raw.skip(start),
        digits == unsigned_part(raw),
        0 <= start <= i < raw.len(),
        is_digit(b),
        b == raw[i],
        all_digits(raw.subrange(start, i)),
        acc == digits_value(raw.subrange(start, i)),
        acc * 10 + digit_value(b) > u64::MAX,
    ensures
        !is_decimal_i64(raw),
{
    if all_digits(digits) {
        assert(raw.subrange(start, i + 1) =~= raw.subrange(start, i).push(b));
        assert(raw.subrange(start, i).push(b).drop_last() =~= raw.subrange(start, i));
        assert(digits_value(raw.subrange(start, i + 1)) == acc * 10 + digit_value(b));
        assert(digits.take(i + 1 - start) =~= raw.subrange(start, i + 1));
        lemma_digits_value_prefix_le(digits, i + 1 - start);
        lemma_digits_value_nonneg(digits);
        assert(digits_value(digits) > u64::MAX);
        assert(sign_of(raw) == 1 || sign_of(raw) == -1);
    }
}

/// The decimal digits of `n`, most significant first.
pub open spec fn spec_u64_decimal(n: nat) -> Seq<u8>
    decreases n,
{
    if n < 10 {
        seq![(48 + n) as u8]
    } else {
        spec_u64_decimal(n / 10).push((48 + n % 10) as u8)
    }
}

/// The decimal form of a count: a `-` for a negative value, then the
/// digits of its magnitude.
pub open spec fn spec_format_count(value: i64) -> Seq<u8> {
    if value < 0 {
        seq![45u8] + spec_u64_decimal((-(value as int)) as nat)
    } else {
        spec_u64_decimal(value as nat)
    }
}

/// The digits of `n` are digits, start with one (never a sign), and
/// denote `n`.
proof fn lemma_u64_decimal_digits(n: nat)
    ensures
        spec_u64_decimal(n).len() > 0,
        all_digits(spec_u64_decimal(n)),
        is_digit(spec_u64_decimal(n)[0]),
        digits_value(spec_u64_decimal(n)) == n,
    decreases n,
{
    if n < 10 {
        assert(digits_value(spec_u64_decimal(n).drop_last()) == 0);
    } else {
        lemma_u64_decimal_digits(n / 10);
        let s = spec_u64_decimal(n);
        assert(s.drop_last() =~= spec_u64_decimal(n / 10));
        assert(forall|i: int|
            0 <= i < s.len() ==> is_digit(#[trigger] s[i]) == if i < s.len() - 1 {
                is_digit(spec_u64_decimal(n / 10)[i])
            } else {
                is_digit((48 + n % 10) as u8)
            });
        assert(digits_value(s) == digits_value(spec_u64_decimal(n / 10)) * 10 + digit_value(
            (48 + n % 10) as u8,
        ));
    }
}

/// Append the decimal digits of `n` to `out`.
fn push_decimal_digits(n: u64, out: &mut Vec<u8>)
    ensures
        final(out)@ == old(out)@ + spec_u64_decimal(n as nat),
    decreases n,
{
    if n < 10 {
        out.push(48 + n as u8);
        assert(out@ =~= old(out)@ + spec_u64_decimal(n as nat));
    } else {
        push_decimal_digits(n / 10, out);
        out.push(48 + (n % 10) as u8);
        assert(out@ =~= old(out)@ + spec_u64_decimal(n as nat));
    }
}

/// Write `value` in the decimal form the cache stores.
pub fn format_count(value: i64) -> (r: Vec<u8>)
    ensures
        r@ == spec_format_count(value),
{
    let mut out: Vec<u8> = Vec::new();
    if value < 0 {
        out.push(45);
        let magnitude: u64 = if value == i64::MIN {
            0x8000_0000_0000_0000
        } else {
            (-value) as u64
        };
        push_decimal_digits(magnitude, &mut out);
        assert(out@ =~= spec_format_count(value));
    } else {
        push_decimal_digits(value as u64, &mut out);
        assert(out@ =~= spec_format_count(value));
    }
    out
}

/// Round trip: the decimal form of any count is a decimal integer in
/// range, and it denotes that count — so a value written by
/// `format_count` is recovered exactly by `parse_count`.
pub proof fn lemma_count_codec_round_trip(value: i64)
    ensures
        is_decimal_i64(spec_format_count(value)),
        decimal_value(spec_format_count(value)) == value as int,
{
    let s = spec_format_count(value);
    if value < 0 {
        let magnitude = (-(value as int)) as nat;
        lemma_u64_decimal_digits(magnitude);
        assert(s[0] == 45);
        assert(unsigned_part(s) =~= spec_u64_decimal(magnitude));
        assert(sign_of(s) == -1);
    } else {
        lemma_u64_decimal_digits(value as nat);
        assert(!has_sign(s));
        assert(sign_of(s) == 1);
    }
}

} // verus!
