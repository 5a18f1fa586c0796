//! Natural numbers of any size, as decimal digits with the lowest first.

use vstd::prelude::*;

verus! {

/// Ten to the power of `e`.
pub open spec fn ten_to(e: nat) -> int {
    vstd::arithmetic::power::pow(10, e)
}

/// Two to the power of `e`.
pub open spec fn two_to(e: nat) -> int {
    vstd::arithmetic::power::pow(2, e)
}

/// Whether every item is a decimal digit.
pub open spec fn are_digits(digits: Seq<u8>) -> bool {
    forall|i: int| 0 <= i < digits.len() ==> digits[i] < 10
}

/// The number that the digits write, the lowest digit first.
pub open spec fn value_of(digits: Seq<u8>) -> int
    decreases digits.len(),
{
    if digits.len() == 0 {
        0
    } else {
        value_of(digits.drop_last()) + digits.last() * ten_to((digits.len() - 1) as nat)
    }
}

pub(crate) proof fn ten_to_next(e: nat)
    ensures
        ten_to(e + 1) == 10 * ten_to(e),
        ten_to(e) > 0,
        ten_to(0) == 1,
{
    reveal(vstd::arithmetic::power::pow);
    vstd::arithmetic::power::lemma_pow_positive(10, e);
}

pub(crate) proof fn two_to_next(e: nat)
    ensures
        two_to(e + 1) == 2 * two_to(e),
        two_to(e) > 0,
        two_to(0) == 1,
{
    reveal(vstd::arithmetic::power::pow);
    vstd::arithmetic::power::lemma_pow_positive(2, e);
}

/// `n` digits write a number below ten to the power of `n`.
pub(crate) proof fn value_is_bounded(digits: Seq<u8>)
    requires
        are_digits(digits),
    ensures
        0 <= value_of(digits) < ten_to(digits.len()),
    decreases digits.len(),
{
    ten_to_next(0);
    if digits.len() > 0 {
        let e = (digits.len() - 1) as nat;
        value_is_bounded(digits.drop_last());
        ten_to_next(e);
        let top = digits.last() as int;
        let unit = ten_to(e);
        assert(0 <= top * unit <= 9 * unit) by (nonlinear_arith)
            requires
                0 <= top <= 9,
                unit > 0,
        ;
    }
}

/// One more digit at the top adds its multiple of a power of ten.
pub(crate) proof fn value_of_push(digits: Seq<u8>, top: u8)
    ensures
        value_of(digits.push(top)) == value_of(digits) + top * ten_to(digits.len()),
{
    assert(digits.push(top).drop_last() =~= digits);
}

/// The value of the first `i + 1` digits from that of the first `i`.
pub(crate) proof fn value_of_take(digits: Seq<u8>, i: int)
    requires
        0 <= i < digits.len(),
    ensures
        value_of(digits.take(i + 1)) == value_of(digits.take(i)) + digits[i] * ten_to(i as nat),
{
    assert(digits.take(i + 1) =~= digits.take(i).push(digits[i]));
    value_of_push(digits.take(i), digits[i]);
}

/// Multiplies by a small factor.
pub(crate) fn times(digits: &Vec<u8>, factor: u64) -> (product: Vec<u8>)
    requires
        are_digits(digits@),
        factor < 0x100_0000_0000_0000,
    ensures
        are_digits(product@),
        value_of(product@) == value_of(digits@) * factor,
{
    let mut product: Vec<u8> = Vec::new();
    let mut carry: u64 = 0;
    let mut i: usize = 0;
    proof {
        ten_to_next(0);
        assert(digits@.take(0) =~= Seq::<u8>::empty());
    }
    while i < digits.len()
        invariant
            i <= digits@.len(),
            product@.len() == i,
            are_digits(digits@),
            are_digits(product@),
            factor < 0x100_0000_0000_0000,
            carry <= factor,
            value_of(product@) + carry * ten_to(i as nat) == value_of(digits@.take(i as int))
                * factor,
        decreases digits@.len() - i,
    {
        let digit: u64 = digits[i] as u64;
        assert(digit * factor <= 9 * factor) by (nonlinear_arith)
            requires
                digit <= 9,
        ;
        let sum: u64 = digit * factor + carry;
        let low: u8 = (sum % 10) as u8;
        proof {
            let unit = ten_to(i as nat);
            let before = value_of(digits@.take(i as int));
            let done = value_of(product@);
            ten_to_next(i as nat);
            value_of_take(digits@, i as int);
            value_of_push(product@, low);
            let next = sum / 10;
            assert(sum == 10 * next + low);
            assert((done + low * unit) + next * (10 * unit) == (before + digit * unit) * factor)
                by (nonlinear_arith)
                requires
                    done + carry * unit == before * factor,
                    sum == digit * factor + carry,
                    sum == 10 * next + low,
            ;
        }
        product.push(low);
        carry = sum / 10;
        i = i + 1;
    }
    assert(digits@.take(i as int) =~= digits@);
    while carry > 0
        invariant
            are_digits(product@),
            value_of(product@) + carry * ten_to(product@.len()) == value_of(digits@) * factor,
        decreases carry,
    {
        let low: u8 = (carry % 10) as u8;
        proof {
            let unit = ten_to(product@.len());
            let done = value_of(product@);
            ten_to_next(product@.len());
            value_of_push(product@, low);
            let next = carry / 10;
            assert((done + low * unit) + next * (10 * unit) == done + carry * unit)
                by (nonlinear_arith)
                requires
                    carry == 10 * next + low,
            ;
        }
        product.push(low);
        carry = carry / 10;
    }
    product
}

/// Multiplies by two to the power of `exponent`.
pub(crate) fn times_two_to(digits: Vec<u8>, exponent: u32) -> (product: Vec<u8>)
    requires
        are_digits(digits@),
    ensures
        are_digits(product@),
        value_of(product@) == value_of(digits@) * two_to(exponent as nat),
{
    let ghost start = value_of(digits@);
    let mut product: Vec<u8> = digits;
    let mut i: u32 = 0;
    proof {
        two_to_next(0);
    }
    while i < exponent
        invariant
            i <= exponent,
            are_digits(product@),
            value_of(product@) == start * two_to(i as nat),
        decreases exponent - i,
    {
        proof {
            let power = two_to(i as nat);
            two_to_next(i as nat);
            assert((start * power) * 2 == start * (2 * power)) by (nonlinear_arith);
        }
        product = times(&product, 2);
        i = i + 1;
    }
    product
}

/// Whether the first number is below the second.
pub(crate) fn is_below(left: &Vec<u8>, right: &Vec<u8>) -> (below: bool)
    requires
        are_digits(left@),
        are_digits(right@),
    ensures
        below == (value_of(left@) < value_of(right@)),
{
    let mut below: bool = false;
    let mut equal: bool = true;
    let mut i: usize = 0;
    let common: usize = if left.len() < right.len() {
        left.len()
    } else {
        right.len()
    };
    assert(left@.take(0) =~= right@.take(0));
    while i < common
        invariant
            i <= common,
            common <= left@.len(),
            common <= right@.len(),
            are_digits(left@),
            are_digits(right@),
            equal == (value_of(left@.take(i as int)) == value_of(right@.take(i as int))),
            below == (value_of(left@.take(i as int)) < value_of(right@.take(i as int))),
        decreases common - i,
    {
        proof {
            let unit = ten_to(i as nat);
            let l = left@[i as int] as int;
            let r = right@[i as int] as int;
            value_of_take(left@, i as int);
            value_of_take(right@, i as int);
            value_is_bounded(left@.take(i as int));
            value_is_bounded(right@.take(i as int));
            assert(l < r ==> l * unit + unit <= r * unit) by (nonlinear_arith)
                requires
                    unit > 0,
            ;
            assert(r < l ==> r * unit + unit <= l * unit) by (nonlinear_arith)
                requires
                    unit > 0,
            ;
        }
        if left[i] != right[i] {
            equal = false;
            below = left[i] < right[i];
        }
        i = i + 1;
    }
    let ghost lower_left = left@.take(common as int);
    let ghost lower_right = right@.take(common as int);
    proof {
        value_is_bounded(lower_left);
        value_is_bounded(lower_right);
    }
    let mut left_rest: bool = false;
    let mut j: usize = common;
    while j < left.len()
        invariant
            common <= j <= left@.len(),
            are_digits(left@),
            lower_left == left@.take(common as int),
            left_rest ==> value_of(left@.take(j as int)) >= value_of(lower_left) + ten_to(
                common as nat,
            ),
            !left_rest ==> value_of(left@.take(j as int)) == value_of(lower_left),
        decreases left@.len() - j,
    {
        proof {
            value_of_take(left@, j as int);
            top_digit_weight(left@[j as int], common as nat, j as nat);
        }
        if left[j] != 0 {
            left_rest = true;
        }
        j = j + 1;
    }
    assert(left@.take(left@.len() as int) =~= left@);
    let mut right_rest: bool = false;
    let mut k: usize = common;
    while k < right.len()
        invariant
            common <= k <= right@.len(),
            are_digits(right@),
            lower_right == right@.take(common as int),
            right_rest ==> value_of(right@.take(k as int)) >= value_of(lower_right) + ten_to(
                common as nat,
            ),
            !right_rest ==> value_of(right@.take(k as int)) == value_of(lower_right),
        decreases right@.len() - k,
    {
        proof {
            value_of_take(right@, k as int);
            top_digit_weight(right@[k as int], common as nat, k as nat);
        }
        if right[k] != 0 {
            right_rest = true;
        }
        k = k + 1;
    }
    assert(right@.take(right@.len() as int) =~= right@);
    if left_rest {
        false
    } else if right_rest {
        true
    } else {
        below
    }
}

/// Multiplies by ten to the power of `zeros`.
pub(crate) fn shifted(digits: &Vec<u8>, zeros: usize) -> (product: Vec<u8>)
    requires
        are_digits(digits@),
    ensures
        are_digits(product@),
        value_of(product@) == value_of(digits@) * ten_to(zeros as nat),
{
    let mut product: Vec<u8> = Vec::new();
    let mut i: usize = 0;
    while i < zeros
        invariant
            i <= zeros,
            product@.len() == i,
            are_digits(product@),
            value_of(product@) == 0,
        decreases zeros - i,
    {
        proof {
            value_of_push(product@, 0);
        }
        product.push(0);
        i = i + 1;
    }
    let mut j: usize = 0;
    assert(digits@.take(0) =~= Seq::<u8>::empty());
    while j < digits.len()
        invariant
            j <= digits@.len(),
            product@.len() == zeros + j,
            are_digits(digits@),
            are_digits(product@),
            value_of(product@) == value_of(digits@.take(j as int)) * ten_to(zeros as nat),
        decreases digits@.len() - j,
    {
        proof {
            value_of_push(product@, digits@[j as int]);
            value_of_take(digits@, j as int);
            vstd::arithmetic::power::lemma_pow_adds(10, zeros as nat, j as nat);
            let shift = ten_to(zeros as nat);
            let unit = ten_to(j as nat);
            let before = value_of(digits@.take(j as int));
            let digit = digits@[j as int] as int;
            assert(before * shift + digit * (shift * unit) == (before + digit * unit) * shift)
                by (nonlinear_arith);
        }
        product.push(digits[j]);
        j = j + 1;
    }
    assert(digits@.take(digits@.len() as int) =~= digits@);
    product
}

/// Drops the zeros at the top: a number of `n` digits is then at least ten to
/// the power of `n - 1`.
pub(crate) fn trimmed(digits: Vec<u8>) -> (short: Vec<u8>)
    requires
        are_digits(digits@),
    ensures
        are_digits(short@),
        short@.len() <= digits@.len(),
        value_of(short@) == value_of(digits@),
        value_of(short@) < ten_to(short@.len()),
        short@.len() == 0 ==> value_of(short@) == 0,
        short@.len() > 0 ==> value_of(short@) >= ten_to((short@.len() - 1) as nat) > 0,
{
    let mut short: Vec<u8> = digits;
    while short.len() > 0 && short[short.len() - 1] == 0
        invariant
            are_digits(short@),
            short@.len() <= digits@.len(),
            value_of(short@) == value_of(digits@),
        decreases short@.len(),
    {
        let ghost before = short@;
        short.pop();
        assert(short@ =~= before.drop_last());
        assert(0 * ten_to(short@.len()) == 0);
    }
    proof {
        value_is_bounded(short@);
        if short@.len() > 0 {
            let place = (short@.len() - 1) as nat;
            assert(are_digits(short@.drop_last()));
            value_is_bounded(short@.drop_last());
            top_digit_weight(short@.last(), place, place);
            ten_to_next(place);
        }
    }
    short
}

/// A digit other than zero at place `place` weighs at least ten to the power of
/// any lower place.
proof fn top_digit_weight(digit: u8, lower: nat, place: nat)
    requires
        lower <= place,
    ensures
        digit == 0 ==> digit * ten_to(place) == 0,
        digit != 0 ==> digit * ten_to(place) >= ten_to(lower),
        digit * ten_to(place) >= 0,
{
    vstd::arithmetic::power::lemma_pow_increases(10, lower, place);
    ten_to_next(place);
    let unit = ten_to(place);
    let d = digit as int;
    assert(d >= 1 ==> d * unit >= unit) by (nonlinear_arith)
        requires
            unit > 0,
    ;
}

} // verus!
