//! Charges: decimal amounts, and which of them can be asked for.
//!
//! A charge is written as a decimal number. It can be asked for when, rounded
//! to the nearest double-precision number, it is above zero and finite.

use vstd::prelude::*;

use crate::decimal::{is_below, shifted, times, times_two_to, trimmed};
use crate::text::chars_of;

verus! {

/// Whether `c` is one of the ten digits.
pub open spec fn is_digit(c: char) -> bool {
    '0' <= c <= '9'
}

/// Whether every character is a digit.
pub open spec fn all_digits(s: Seq<char>) -> bool {
    forall|i: int| 0 <= i < s.len() ==> is_digit(#[trigger] s[i])
}

/// The number that a row of digits writes.
pub open spec fn written_value(s: Seq<char>) -> int
    decreases s.len(),
{
    if s.len() == 0 {
        0
    } else {
        10 * written_value(s.drop_last()) + (s.last() as int - '0' as int)
    }
}

/// How many digits `s` starts with.
pub open spec fn leading_digits(s: Seq<char>) -> nat
    decreases s.len(),
{
    if s.len() > 0 && is_digit(s[0]) {
        1 + leading_digits(s.drop_first())
    } else {
        0
    }
}

/// The exponent that `s` writes: nothing is zero, else `e` or `E`, a sign or
/// none, and at least one digit.
pub open spec fn exponent_of(s: Seq<char>) -> Option<int> {
    if s.len() == 0 {
        Some(0)
    } else if s[0] == 'e' || s[0] == 'E' {
        let signed = s.skip(1);
        let sign: int = if signed.len() > 0 && (signed[0] == '-' || signed[0] == '+') {
            1
        } else {
            0
        };
        let digits = signed.skip(sign);
        if digits.len() > 0 && all_digits(digits) {
            Some(
                if signed[0] == '-' {
                    -written_value(digits)
                } else {
                    written_value(digits)
                },
            )
        } else {
            None
        }
    } else {
        None
    }
}

/// A number of the form `digits * 10^scale`.
pub struct Amount {
    pub digits: int,
    pub scale: int,
}

/// The amount that `s` writes, where it writes a decimal number without a minus
/// sign: a plus sign or none, digits with at most one point among or around
/// them, and an exponent or none.
pub open spec fn amount_of(s: Seq<char>) -> Option<Amount> {
    let body = if s.len() > 0 && s[0] == '+' {
        s.skip(1)
    } else {
        s
    };
    let whole = leading_digits(body) as int;
    let rest = body.skip(whole);
    let point: int = if rest.len() > 0 && rest[0] == '.' {
        1
    } else {
        0
    };
    let places: int = if point == 1 {
        leading_digits(rest.skip(1)) as int
    } else {
        0
    };
    let mantissa = body.take(whole) + rest.subrange(point, point + places);
    match exponent_of(rest.skip(point + places)) {
        Some(exponent) => if mantissa.len() > 0 {
            Some(Amount { digits: written_value(mantissa), scale: exponent - places })
        } else {
            None
        },
        None => None,
    }
}

/// Halfway between the largest finite double, `(2^53 - 1) * 2^971`, and the
/// number that would follow it: from here on amounts round to infinity.
pub open spec fn overflow_bound() -> int {
    0x3F_FFFF_FFFF_FFFF * crate::decimal::two_to(970)
}

impl Amount {
    /// The amount rounds to a double above zero: it is more than `2^-1075`, half
    /// the smallest double above zero.
    pub open spec fn rounds_above_zero(self) -> bool {
        if self.scale >= 0 {
            self.digits * crate::decimal::ten_to(self.scale as nat) * crate::decimal::two_to(1075)
                > 1
        } else {
            self.digits * crate::decimal::two_to(1075) > crate::decimal::ten_to(
                (-self.scale) as nat,
            )
        }
    }

    /// The amount rounds to a finite double.
    pub open spec fn rounds_finite(self) -> bool {
        if self.scale >= 0 {
            self.digits * crate::decimal::ten_to(self.scale as nat) < overflow_bound()
        } else {
            self.digits < overflow_bound() * crate::decimal::ten_to((-self.scale) as nat)
        }
    }
}

/// A charge is valid when it parses as a finite number greater than zero.
pub open spec fn is_valid_charge(charge: Seq<char>) -> bool {
    match amount_of(charge) {
        Some(amount) => amount.rounds_above_zero() && amount.rounds_finite(),
        None => false,
    }
}

proof fn front_digit_value(c: char, s: Seq<char>)
    ensures
        written_value(seq![c] + s) == (c as int - '0' as int) * crate::decimal::ten_to(s.len())
            + written_value(s),
    decreases s.len(),
{
    let digit = c as int - '0' as int;
    crate::decimal::ten_to_next(0);
    if s.len() == 0 {
        assert((seq![c] + s).drop_last() =~= Seq::<char>::empty());
        assert(written_value((seq![c] + s).drop_last()) == 0);
    } else {
        assert((seq![c] + s).drop_last() =~= seq![c] + s.drop_last());
        front_digit_value(c, s.drop_last());
        crate::decimal::ten_to_next((s.len() - 1) as nat);
        let unit = crate::decimal::ten_to((s.len() - 1) as nat);
        assert(10 * (digit * unit) == digit * (10 * unit)) by (nonlinear_arith);
    }
}

/// A row of digits writes at least what its beginning writes.
proof fn prefix_writes_no_more(s: Seq<char>, n: int)
    requires
        all_digits(s),
        0 <= n <= s.len(),
    ensures
        0 <= written_value(s.take(n)) <= written_value(s),
    decreases s.len(),
{
    if n == s.len() {
        assert(s.take(n) =~= s);
        if n > 0 {
            assert(all_digits(s.drop_last()));
            prefix_writes_no_more(s.drop_last(), n - 1);
        }
    } else {
        assert(s.drop_last().take(n) =~= s.take(n));
        assert(all_digits(s.drop_last()));
        prefix_writes_no_more(s.drop_last(), n);
    }
}

/// The digits that `s` starts with are digits, and what follows is none.
proof fn leading_digits_are_digits(s: Seq<char>)
    ensures
        leading_digits(s) <= s.len(),
        all_digits(s.take(leading_digits(s) as int)),
        leading_digits(s) < s.len() ==> !is_digit(s[leading_digits(s) as int]),
    decreases s.len(),
{
    if s.len() > 0 && is_digit(s[0]) {
        let n = leading_digits(s.drop_first()) as int;
        leading_digits_are_digits(s.drop_first());
        assert forall|i: int| 0 <= i < n + 1 implies is_digit(#[trigger] s.take(n + 1)[i]) by {
            if i > 0 {
                assert(s.drop_first().take(n)[i - 1] == s[i]);
            }
        }
    }
}

/// Where the digits end that start at `from`.
fn end_of_digits(chars: &Vec<char>, from: usize) -> (end: usize)
    requires
        from <= chars@.len(),
    ensures
        from <= end <= chars@.len(),
        end - from == leading_digits(chars@.skip(from as int)),
{
    let mut end: usize = from;
    while end < chars.len() && '0' <= chars[end] && chars[end] <= '9'
        invariant
            from <= end <= chars@.len(),
            leading_digits(chars@.skip(from as int)) == (end - from) + leading_digits(
                chars@.skip(end as int),
            ),
        decreases chars@.len() - end,
    {
        assert(chars@.skip(end as int).drop_first() =~= chars@.skip(end + 1));
        end = end + 1;
    }
    end
}

/// The number that the digits of `chars` write, lowest digit first.
fn digits_of(chars: &Vec<char>) -> (digits: Vec<u8>)
    requires
        all_digits(chars@),
    ensures
        crate::decimal::are_digits(digits@),
        digits@.len() == chars@.len(),
        crate::decimal::value_of(digits@) == written_value(chars@),
{
    let mut digits: Vec<u8> = Vec::new();
    let mut i: usize = chars.len();
    assert(chars@.skip(i as int) =~= Seq::<char>::empty());
    while i > 0
        invariant
            i <= chars@.len(),
            all_digits(chars@),
            crate::decimal::are_digits(digits@),
            digits@.len() == chars@.len() - i,
            crate::decimal::value_of(digits@) == written_value(chars@.skip(i as int)),
        decreases i,
    {
        i = i - 1;
        let c: char = chars[i];
        assert(is_digit(chars@[i as int]));
        let digit: u8 = (c as u32 - '0' as u32) as u8;
        proof {
            assert(chars@.skip(i as int) =~= seq![c] + chars@.skip(i + 1));
            front_digit_value(c, chars@.skip(i + 1));
            crate::decimal::value_of_push(digits@, digit);
        }
        digits.push(digit);
    }
    assert(chars@.skip(0) =~= chars@);
    digits
}

/// Where exponents become too large to matter: no text is long enough to
/// balance one of this size with digits.
pub open spec fn exponent_cap() -> int {
    1_000_000_000_000_000_000_000_000_000_000
}

/// The number that the digits from `from` on write, where it is below the cap.
fn capped_value(chars: &Vec<char>, from: usize) -> (value: Option<u128>)
    requires
        from <= chars@.len(),
        all_digits(chars@.skip(from as int)),
    ensures
        (match value {
            Some(v) => v == written_value(chars@.skip(from as int)) && v < exponent_cap(),
            None => written_value(chars@.skip(from as int)) >= exponent_cap(),
        }),
{
    let ghost row = chars@.skip(from as int);
    let mut value: u128 = 0;
    let mut i: usize = from;
    assert(row.take(0) =~= Seq::<char>::empty());
    while i < chars.len()
        invariant
            from <= i <= chars@.len(),
            row == chars@.skip(from as int),
            all_digits(row),
            value == written_value(row.take(i - from)),
            value < exponent_cap(),
        decreases chars@.len() - i,
    {
        let c: char = chars[i];
        assert(row[i - from] == c);
        proof {
            assert(row.take(i - from + 1).drop_last() =~= row.take(i - from));
            prefix_writes_no_more(row, i - from + 1);
        }
        value = value * 10 + (c as u32 - '0' as u32) as u128;
        if value >= 1_000_000_000_000_000_000_000_000_000_000 {
            return None;
        }
        i = i + 1;
    }
    assert(row.take(row.len() as int) =~= row);
    Some(value)
}

/// An exponent: its sign, and its magnitude where that is below the cap.
struct Exponent {
    negative: bool,
    magnitude: Option<u128>,
}

impl Exponent {
    spec fn stands_for(self, exponent: int) -> bool {
        let magnitude = if self.negative {
            -exponent
        } else {
            exponent
        };
        match self.magnitude {
            Some(m) => m == magnitude && m < exponent_cap(),
            None => magnitude >= exponent_cap(),
        }
    }
}

/// Reads the exponent that the characters from `from` on write.
fn read_exponent(chars: &Vec<char>, from: usize) -> (exponent: Option<Exponent>)
    requires
        from <= chars@.len(),
    ensures
        (match (exponent, exponent_of(chars@.skip(from as int))) {
            (Some(read), Some(written)) => read.stands_for(written),
            (None, None) => true,
            _ => false,
        }),
{
    let ghost s = chars@.skip(from as int);
    if from == chars.len() {
        return Some(Exponent { negative: false, magnitude: Some(0) });
    }
    if chars[from] != 'e' && chars[from] != 'E' {
        return None;
    }
    let mut start: usize = from + 1;
    let mut negative: bool = false;
    if start < chars.len() && (chars[start] == '-' || chars[start] == '+') {
        negative = chars[start] == '-';
        start = start + 1;
    }
    let ghost signed = s.skip(1);
    let ghost digits = chars@.skip(start as int);
    proof {
        assert(signed =~= chars@.skip(from + 1));
        assert(signed.skip(0) =~= signed);
        assert(signed.len() > 0 ==> signed[0] == chars@[from + 1]);
        assert(signed.len() > 0 ==> signed.skip(1) =~= chars@.skip(from + 2));
        leading_digits_are_digits(digits);
    }
    let end: usize = end_of_digits(chars, start);
    if end < chars.len() || end == start {
        proof {
            if end < chars.len() {
                assert(digits[end - start] == chars@[end as int]);
                assert(!all_digits(digits));
            }
        }
        return None;
    }
    assert(digits.take(digits.len() as int) =~= digits);
    Some(Exponent { negative, magnitude: capped_value(chars, start) })
}

proof fn overflow_bound_is_below_ten_to(e: nat)
    requires
        e >= 1024,
    ensures
        0 < overflow_bound() < crate::decimal::ten_to(e),
{
    crate::decimal::two_to_next(970);
    crate::decimal::ten_to_next(970);
    vstd::arithmetic::power::lemma_pow_distributes(2, 5, 970);
    vstd::arithmetic::power::lemma_pow_positive(5, 970);
    let twos = crate::decimal::two_to(970);
    let fives = vstd::arithmetic::power::pow(5, 970);
    assert(twos <= twos * fives) by (nonlinear_arith)
        requires
            twos > 0,
            fives > 0,
    ;
    assert(crate::decimal::ten_to(17) == 100_000_000_000_000_000) by {
        reveal_with_fuel(vstd::arithmetic::power::pow, 18);
    }
    let high = crate::decimal::ten_to(17);
    let tens = crate::decimal::ten_to(970);
    assert(0 < 0x3F_FFFF_FFFF_FFFF * twos < high * tens) by (nonlinear_arith)
        requires
            0 < twos <= tens,
            high == 100_000_000_000_000_000,
    ;
    vstd::arithmetic::power::lemma_pow_adds(10, 17, 970);
    vstd::arithmetic::power::lemma_pow_increases(10, 987, e);
}

/// An amount with many zeros behind it is too large.
proof fn large_scale_overflows(amount: Amount)
    requires
        amount.digits >= 1,
        amount.scale >= 1024,
    ensures
        !amount.rounds_finite(),
{
    let digits = amount.digits;
    let unit = crate::decimal::ten_to(amount.scale as nat);
    overflow_bound_is_below_ten_to(amount.scale as nat);
    assert(digits * unit >= unit) by (nonlinear_arith)
        requires
            digits >= 1,
            unit > 0,
    ;
}

/// An amount that ends far behind the point is too small.
proof fn small_scale_vanishes(amount: Amount, length: nat)
    requires
        0 <= amount.digits < crate::decimal::ten_to(length),
        -amount.scale >= length + 1075,
    ensures
        !amount.rounds_above_zero(),
{
    let digits = amount.digits;
    let twos = crate::decimal::two_to(1075);
    let tens = crate::decimal::ten_to(1075);
    let unit = crate::decimal::ten_to(length);
    crate::decimal::two_to_next(1075);
    crate::decimal::ten_to_next(length);
    vstd::arithmetic::power::lemma_pow_distributes(2, 5, 1075);
    vstd::arithmetic::power::lemma_pow_positive(5, 1075);
    let fives = vstd::arithmetic::power::pow(5, 1075);
    assert(twos <= twos * fives) by (nonlinear_arith)
        requires
            twos > 0,
            fives > 0,
    ;
    assert(digits * twos <= unit * tens) by (nonlinear_arith)
        requires
            0 <= digits < unit,
            0 < twos <= tens,
    ;
    vstd::arithmetic::power::lemma_pow_adds(10, length, 1075);
    vstd::arithmetic::power::lemma_pow_increases(10, length + 1075, (-amount.scale) as nat);
}

/// The bound from which on amounts round to infinity.
fn overflow_digits() -> (digits: Vec<u8>)
    ensures
        crate::decimal::are_digits(digits@),
        crate::decimal::value_of(digits@) == overflow_bound(),
{
    let mut one: Vec<u8> = Vec::new();
    proof {
        crate::decimal::value_of_push(one@, 1);
        crate::decimal::ten_to_next(0);
    }
    one.push(1);
    times_two_to(times(&one, 0x3F_FFFF_FFFF_FFFF), 970)
}

/// Whether the digits, with `places` of them behind the point, write an amount
/// that rounds to a double above zero.
fn stays_above_zero(digits: &Vec<u8>, places: i128) -> (above: bool)
    requires
        crate::decimal::are_digits(digits@),
        0 < places < 2 * exponent_cap(),
    ensures
        above == (Amount { digits: crate::decimal::value_of(digits@), scale: -places })
            .rounds_above_zero(),
{
    let copy: Vec<u8> = shifted(digits, 0);
    proof {
        crate::decimal::ten_to_next(0);
        assert(crate::decimal::value_of(digits@) * 1 == crate::decimal::value_of(digits@));
    }
    let doubled: Vec<u8> = trimmed(times_two_to(copy, 1075));
    let length: i128 = doubled.len() as i128;
    proof {
        crate::decimal::ten_to_next(places as nat);
    }
    if length <= places {
        proof {
            vstd::arithmetic::power::lemma_pow_increases(10, length as nat, places as nat);
        }
        false
    } else if length > places + 1 {
        proof {
            vstd::arithmetic::power::lemma_pow_strictly_increases(
                10,
                places as nat,
                (length - 1) as nat,
            );
        }
        true
    } else {
        let mut one: Vec<u8> = Vec::new();
        proof {
            crate::decimal::value_of_push(one@, 1);
            crate::decimal::ten_to_next(0);
        }
        one.push(1);
        let unit: Vec<u8> = shifted(&one, doubled.len() - 1);
        is_below(&unit, &doubled)
    }
}

/// Whether `digits * 10^scale` rounds to a double that is above zero and finite.
fn is_in_range(digits: Vec<u8>, scale: i128) -> (within: bool)
    requires
        crate::decimal::are_digits(digits@),
        -2 * exponent_cap() < scale < 2 * exponent_cap(),
    ensures
        within == {
            let amount = Amount {
                digits: crate::decimal::value_of(digits@),
                scale: scale as int,
            };
            amount.rounds_above_zero() && amount.rounds_finite()
        },
{
    let ghost amount = Amount {
        digits: crate::decimal::value_of(digits@),
        scale: scale as int,
    };
    let short: Vec<u8> = trimmed(digits);
    if short.len() == 0 {
        proof {
            nothing_is_above_zero(amount);
        }
        return false;
    }
    let bound: Vec<u8> = overflow_digits();
    if scale >= 1024 {
        proof {
            large_scale_overflows(amount);
        }
        false
    } else if scale >= 0 {
        proof {
            whole_is_above_zero(amount);
        }
        let whole: Vec<u8> = shifted(&short, scale as usize);
        is_below(&whole, &bound)
    } else {
        let places: i128 = -scale;
        let finite: bool = if short.len() as i128 <= places {
            proof {
                let unit = crate::decimal::ten_to(places as nat);
                let limit = overflow_bound();
                vstd::arithmetic::power::lemma_pow_increases(10, short@.len(), places as nat);
                crate::decimal::ten_to_next(places as nat);
                overflow_bound_is_below_ten_to(1024);
                assert(unit <= limit * unit) by (nonlinear_arith)
                    requires
                        unit > 0,
                        limit > 0,
                ;
            }
            true
        } else {
            is_below(&short, &shifted(&bound, places as usize))
        };
        finite && stays_above_zero(&short, places)
    }
}

proof fn nothing_is_above_zero(amount: Amount)
    requires
        amount.digits == 0,
    ensures
        !amount.rounds_above_zero(),
{
    let scale = if amount.scale >= 0 {
        amount.scale as nat
    } else {
        (-amount.scale) as nat
    };
    let unit = crate::decimal::ten_to(scale);
    let twos = crate::decimal::two_to(1075);
    crate::decimal::ten_to_next(scale);
    assert(0 * unit * twos == 0 && 0 * twos == 0) by (nonlinear_arith);
}

proof fn whole_is_above_zero(amount: Amount)
    requires
        amount.digits >= 1,
        amount.scale >= 0,
    ensures
        amount.rounds_above_zero(),
{
    let digits = amount.digits;
    let unit = crate::decimal::ten_to(amount.scale as nat);
    let half = crate::decimal::two_to(1074);
    crate::decimal::ten_to_next(amount.scale as nat);
    crate::decimal::two_to_next(1074);
    assert(digits * unit * (2 * half) > 1) by (nonlinear_arith)
        requires
            digits >= 1,
            unit >= 1,
            half >= 1,
    ;
}

/// Appends the characters from `from` up to `to`.
fn append_range(row: &mut Vec<char>, chars: &Vec<char>, from: usize, to: usize)
    requires
        from <= to <= chars@.len(),
    ensures
        final(row)@ == old(row)@ + chars@.subrange(from as int, to as int),
{
    let mut i: usize = from;
    let ghost start = row@;
    assert(start + chars@.subrange(from as int, from as int) =~= start);
    while i < to
        invariant
            from <= i <= to <= chars@.len(),
            row@ == start + chars@.subrange(from as int, i as int),
        decreases to - i,
    {
        row.push(chars[i]);
        assert(row@ =~= start + chars@.subrange(from as int, i + 1));
        i = i + 1;
    }
}

/// An amount as it was read: its digits, how many of them stand behind the
/// point, and its exponent.
struct Reading {
    digits: Vec<u8>,
    places: usize,
    exponent: Exponent,
}

impl Reading {
    spec fn stands_for(self, amount: Amount) -> bool {
        &&& crate::decimal::are_digits(self.digits@)
        &&& crate::decimal::value_of(self.digits@) == amount.digits
        &&& self.exponent.stands_for(amount.scale + self.places)
    }
}

/// Reads the amount that `charge` writes.
fn read_amount(charge: &str) -> (reading: Option<Reading>)
    ensures
        (match (reading, amount_of(charge@)) {
            (Some(read), Some(written)) => read.stands_for(written),
            (None, None) => true,
            _ => false,
        }),
{
    let chars: Vec<char> = chars_of(charge);
    let start: usize = if chars.len() > 0 && chars[0] == '+' {
        1
    } else {
        0
    };
    let ghost body = chars@.skip(start as int);
    assert(start == 0 ==> body =~= charge@);
    let point: usize = end_of_digits(&chars, start);
    let ghost whole = leading_digits(body) as int;
    let ghost rest = body.skip(whole);
    assert(rest =~= chars@.skip(point as int));
    proof {
        leading_digits_are_digits(body);
    }
    let mut mantissa: Vec<char> = Vec::new();
    append_range(&mut mantissa, &chars, start, point);
    assert(mantissa@ =~= body.take(whole));
    let mut end: usize = point;
    let mut places: usize = 0;
    if point < chars.len() && chars[point] == '.' {
        end = end_of_digits(&chars, point + 1);
        places = end - (point + 1);
        append_range(&mut mantissa, &chars, point + 1, end);
        proof {
            assert(rest.skip(1) =~= chars@.skip(point + 1));
            leading_digits_are_digits(rest.skip(1));
            let fraction = rest.subrange(1, 1 + places);
            assert(fraction =~= chars@.subrange(point + 1, end as int));
            assert(fraction =~= rest.skip(1).take(places as int));
            assert(mantissa@ =~= body.take(whole) + fraction);
            assert(all_digits(mantissa@));
            assert(rest.skip(1 + places) =~= chars@.skip(end as int));
        }
    } else {
        assert(body.take(whole) + rest.subrange(0, 0) =~= body.take(whole));
        assert(rest.skip(0) =~= chars@.skip(end as int));
    }
    match read_exponent(&chars, end) {
        Some(exponent) => {
            if mantissa.len() == 0 {
                None
            } else {
                Some(Reading { digits: digits_of(&mantissa), places, exponent })
            }
        },
        None => None,
    }
}

/// Whether a tool can be charged `charge`: it parses as a finite number greater
/// than zero.
pub fn charge_is_valid(charge: &str) -> (valid: bool)
    ensures
        valid == is_valid_charge(charge@),
{
    match read_amount(charge) {
        None => false,
        Some(reading) => {
            let places: i128 = reading.places as i128;
            let negative: bool = reading.exponent.negative;
            match reading.exponent.magnitude {
                Some(magnitude) => {
                    let exponent: i128 = if negative {
                        -(magnitude as i128)
                    } else {
                        magnitude as i128
                    };
                    is_in_range(reading.digits, exponent - places)
                },
                None => {
                    let length: usize = reading.digits.len();
                    proof {
                        let amount = amount_of(charge@)->0;
                        crate::decimal::value_is_bounded(reading.digits@);
                        if negative {
                            small_scale_vanishes(amount, length as nat);
                        } else if amount.digits == 0 {
                            nothing_is_above_zero(amount);
                        } else {
                            large_scale_overflows(amount);
                        }
                    }
                    false
                },
            }
        },
    }
}

} // verus!
