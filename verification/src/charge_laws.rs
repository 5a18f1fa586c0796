//! What holds of charges: which texts are valid, in terms of how they are
//! spelled.

use vstd::prelude::*;

verus! {

/// A way to spell a decimal number: a plus sign, digits, a point and more digits,
/// and an exponent, each of them where it is there.
pub struct Spelling {
    pub plus: bool,
    pub whole: Seq<char>,
    pub point: bool,
    pub fraction: Seq<char>,
    /// The letter in front of the exponent, where there is an exponent.
    pub mark: Option<char>,
    pub exponent_sign: Option<char>,
    pub exponent_digits: Seq<char>,
}

/// Every character is one of the ten digits.
pub open spec fn only_digits(s: Seq<char>) -> bool {
    forall|i: int| 0 <= i < s.len() ==> '0' <= #[trigger] s[i] <= '9'
}

impl Spelling {
    /// At least one digit in front of the exponent; digits behind a point only;
    /// an exponent with a letter `e` and at least one digit.
    pub open spec fn is_number(self) -> bool {
        &&& only_digits(self.whole)
        &&& only_digits(self.fraction)
        &&& self.whole.len() + self.fraction.len() > 0
        &&& self.fraction.len() > 0 ==> self.point
        &&& match self.mark {
            Some(mark) => {
                &&& mark == 'e' || mark == 'E'
                &&& self.exponent_sign matches Some(sign) ==> sign == '+' || sign == '-'
                &&& only_digits(self.exponent_digits)
                &&& self.exponent_digits.len() > 0
            },
            None => self.exponent_sign is None && self.exponent_digits.len() == 0,
        }
    }

    pub open spec fn exponent_text(self) -> Seq<char> {
        match (self.mark, self.exponent_sign) {
            (Some(mark), Some(sign)) => seq![mark, sign] + self.exponent_digits,
            (Some(mark), None) => seq![mark] + self.exponent_digits,
            _ => Seq::empty(),
        }
    }

    pub open spec fn fraction_text(self) -> Seq<char> {
        if self.point {
            seq!['.'] + self.fraction
        } else {
            Seq::empty()
        }
    }

    pub open spec fn sign_text(self) -> Seq<char> {
        if self.plus {
            seq!['+']
        } else {
            Seq::empty()
        }
    }

    /// The text.
    pub open spec fn text(self) -> Seq<char> {
        self.sign_text() + (self.whole + (self.fraction_text() + self.exponent_text()))
    }

    /// All digits in front of the exponent, read as one number.
    pub open spec fn digits(self) -> int {
        crate::charge::written_value(self.whole + self.fraction)
    }

    /// The power of ten that the exponent multiplies by.
    pub open spec fn factor(self) -> int {
        if self.exponent_sign == Some('-') {
            1
        } else {
            vstd::arithmetic::power::pow(
                10,
                crate::charge::written_value(self.exponent_digits) as nat,
            )
        }
    }

    /// The power of ten that the point and the exponent divide by.
    pub open spec fn divisor(self) -> int {
        vstd::arithmetic::power::pow(10, self.fraction.len()) * if self.exponent_sign == Some('-') {
            vstd::arithmetic::power::pow(
                10,
                crate::charge::written_value(self.exponent_digits) as nat,
            )
        } else {
            1
        }
    }
}

/// One digit writes its own number; a row of digits followed by another writes
/// the first number moved up by as many places as the second has, and the second.
pub proof fn digits_write_in_base_ten(c: char, s: Seq<char>, t: Seq<char>)
    ensures
        crate::charge::written_value(Seq::empty()) == 0,
        crate::charge::written_value(seq![c]) == c as int - '0' as int,
        crate::charge::written_value(s + t) == crate::charge::written_value(s)
            * vstd::arithmetic::power::pow(10, t.len()) + crate::charge::written_value(t),
    decreases t.len(),
{
    reveal(vstd::arithmetic::power::pow);
    assert(crate::charge::written_value(Seq::<char>::empty()) == 0);
    assert(seq![c].drop_last() =~= Seq::<char>::empty());
    if t.len() == 0 {
        assert(s + t =~= s);
    } else {
        let shorter = t.drop_last();
        digits_write_in_base_ten(c, s, shorter);
        assert((s + t).drop_last() =~= s + shorter);
        let high = crate::charge::written_value(s);
        let unit = vstd::arithmetic::power::pow(10, shorter.len());
        assert(10 * (high * unit) == high * (10 * unit)) by (nonlinear_arith);
    }
}

/// `n` digits write a number below ten to the power of `n`, and zero only where
/// all of them are zero.
pub proof fn digits_write_a_bounded_number(s: Seq<char>)
    requires
        only_digits(s),
    ensures
        0 <= crate::charge::written_value(s) < vstd::arithmetic::power::pow(10, s.len()),
        crate::charge::written_value(s) == 0 <==> forall|i: int|
            0 <= i < s.len() ==> #[trigger] s[i] == '0',
    decreases s.len(),
{
    reveal(vstd::arithmetic::power::pow);
    if s.len() > 0 {
        let shorter = s.drop_last();
        assert(forall|i: int| 0 <= i < shorter.len() ==> shorter[i] == s[i]);
        assert('0' <= s[s.len() - 1] <= '9');
        digits_write_a_bounded_number(shorter);
        if crate::charge::written_value(s) == 0 {
            assert forall|i: int| 0 <= i < s.len() implies #[trigger] s[i] == '0' by {
                if i < shorter.len() {
                    assert(shorter[i] == '0');
                }
            }
        }
    }
}

proof fn leading_digits_of(digits: Seq<char>, rest: Seq<char>)
    requires
        only_digits(digits),
        rest.len() > 0 ==> !('0' <= rest[0] <= '9'),
    ensures
        crate::charge::leading_digits(digits + rest) == digits.len(),
    decreases digits.len(),
{
    if digits.len() == 0 {
        assert(digits + rest =~= rest);
    } else {
        assert(only_digits(digits.drop_first()));
        leading_digits_of(digits.drop_first(), rest);
        assert((digits + rest).drop_first() =~= digits.drop_first() + rest);
        assert('0' <= digits[0] <= '9');
    }
}

proof fn exponent_is_read(spelling: Spelling)
    requires
        spelling.is_number(),
    ensures
        crate::charge::exponent_of(spelling.exponent_text()) == Some(
            if spelling.exponent_sign == Some('-') {
                -crate::charge::written_value(spelling.exponent_digits)
            } else {
                crate::charge::written_value(spelling.exponent_digits)
            },
        ),
        crate::charge::written_value(spelling.exponent_digits) >= 0,
{
    let s = spelling.exponent_text();
    let digits = spelling.exponent_digits;
    digits_write_a_bounded_number(digits);
    if spelling.mark is Some {
        assert('0' <= digits[0] <= '9');
        assert(crate::charge::all_digits(digits));
        if spelling.exponent_sign is Some {
            assert(s.skip(1).skip(1) =~= digits);
        } else {
            assert(s.skip(1) =~= digits);
            assert(s.skip(1).skip(0) =~= digits);
        }
    }
}

proof fn amount_is_read(spelling: Spelling)
    requires
        spelling.is_number(),
    ensures
        (crate::charge::amount_of(spelling.text()) matches Some(amount) && {
            &&& amount.digits == spelling.digits()
            &&& amount.scale == if spelling.exponent_sign == Some('-') {
                -crate::charge::written_value(spelling.exponent_digits)
            } else {
                crate::charge::written_value(spelling.exponent_digits)
            } - spelling.fraction.len()
        }),
{
    let text = spelling.text();
    let tail = spelling.exponent_text();
    let rest = spelling.fraction_text() + tail;
    let body = spelling.whole + rest;
    exponent_is_read(spelling);
    if spelling.whole.len() > 0 {
        assert('0' <= spelling.whole[0] <= '9');
        assert(body[0] == spelling.whole[0]);
    } else {
        assert(body[0] == '.');
    }
    if spelling.plus {
        assert(text.skip(1) =~= body);
    } else {
        assert(text =~= body);
    }
    leading_digits_of(spelling.whole, rest);
    let whole = spelling.whole.len() as int;
    assert(body.skip(whole) =~= rest);
    assert(body.take(whole) =~= spelling.whole);
    if spelling.point {
        leading_digits_of(spelling.fraction, tail);
        let places = spelling.fraction.len() as int;
        assert(rest.skip(1) =~= spelling.fraction + tail);
        assert(rest.subrange(1, 1 + places) =~= spelling.fraction);
        assert(rest.skip(1 + places) =~= tail);
    } else {
        assert(rest =~= tail);
        assert(rest.subrange(0, 0) =~= Seq::<char>::empty());
        assert(rest.skip(0) =~= tail);
        assert(spelling.fraction =~= Seq::<char>::empty());
    }
}

/// A spelled number is a valid charge exactly when it is more than half the
/// smallest double above zero, `2^-1074`, and less than halfway from the largest
/// finite double, `(2^53 - 1) * 2^971`, to the next step: then it is above zero
/// and finite once it is rounded.
pub proof fn charge_is_valid_in_the_range_of_doubles(spelling: Spelling)
    requires
        spelling.is_number(),
    ensures
        crate::charge::is_valid_charge(spelling.text()) <==> {
            &&& spelling.digits() * spelling.factor() * vstd::arithmetic::power::pow(2, 1075)
                > spelling.divisor()
            &&& spelling.digits() * spelling.factor() < 0x3F_FFFF_FFFF_FFFF
                * vstd::arithmetic::power::pow(2, 970) * spelling.divisor()
        },
{
    amount_is_read(spelling);
    exponent_is_read(spelling);
    let amount = crate::charge::amount_of(spelling.text())->0;
    let n = spelling.digits();
    let e = crate::charge::written_value(spelling.exponent_digits) as nat;
    let places = spelling.fraction.len();
    let twos = vstd::arithmetic::power::pow(2, 1075);
    let bound = 0x3F_FFFF_FFFF_FFFF * vstd::arithmetic::power::pow(2, 970);
    let unit = vstd::arithmetic::power::pow(10, places);
    let tens = vstd::arithmetic::power::pow(10, e);
    vstd::arithmetic::power::lemma_pow_positive(10, places);
    vstd::arithmetic::power::lemma_pow_positive(10, e);
    vstd::arithmetic::power::lemma_pow0(10);
    if spelling.exponent_sign == Some('-') {
        vstd::arithmetic::power::lemma_pow_adds(10, places, e);
        assert(n * 1 == n);
        if amount.scale == 0 {
            assert(places + e == 0);
            assert(n * 1 * twos == n * twos && n * 1 == n && bound * 1 == bound)
                by (nonlinear_arith);
        }
    } else if amount.scale >= 0 {
        let left = vstd::arithmetic::power::pow(10, amount.scale as nat);
        vstd::arithmetic::power::lemma_pow_adds(10, amount.scale as nat, places);
        assert(unit * 1 == unit);
        assert(tens == left * unit);
        assert((n * left * twos > 1) == (n * (left * unit) * twos > unit)) by (nonlinear_arith)
            requires
                unit > 0,
        ;
        assert((n * left < bound) == (n * (left * unit) < bound * unit)) by (nonlinear_arith)
            requires
                unit > 0,
        ;
    } else {
        let right = vstd::arithmetic::power::pow(10, (-amount.scale) as nat);
        vstd::arithmetic::power::lemma_pow_adds(10, (-amount.scale) as nat, e);
        assert(unit * 1 == unit);
        assert(unit == right * tens);
        assert((n * twos > right) == (n * tens * twos > right * tens)) by (nonlinear_arith)
            requires
                tens > 0,
        ;
        assert((n < bound * right) == (n * tens < bound * (right * tens))) by (nonlinear_arith)
            requires
                tens > 0,
        ;
    }
}

proof fn leading_digits_split(s: Seq<char>)
    ensures
        crate::charge::leading_digits(s) <= s.len(),
        only_digits(s.take(crate::charge::leading_digits(s) as int)),
    decreases s.len(),
{
    if s.len() > 0 && crate::charge::is_digit(s[0]) {
        let n = crate::charge::leading_digits(s.drop_first()) as int;
        leading_digits_split(s.drop_first());
        assert forall|i: int| 0 <= i < n + 1 implies '0' <= #[trigger] s.take(n + 1)[i] <= '9' by {
            if i > 0 {
                assert(s.drop_first().take(n)[i - 1] == s[i]);
            }
        }
    }
}

proof fn exponent_is_spelled(tail: Seq<char>) -> (parts: (Option<char>, Option<char>, Seq<char>))
    requires
        crate::charge::exponent_of(tail) is Some,
    ensures
        ({
            let (mark, sign, digits) = parts;
            match mark {
                Some(mark) => {
                    &&& mark == 'e' || mark == 'E'
                    &&& only_digits(digits)
                    &&& digits.len() > 0
                    &&& match sign {
                        Some(sign) => (sign == '+' || sign == '-') && tail == seq![mark, sign]
                            + digits,
                        None => tail == seq![mark] + digits,
                    }
                },
                None => sign is None && digits == Seq::<char>::empty() && tail == Seq::<
                    char,
                >::empty(),
            }
        }),
{
    if tail.len() == 0 {
        assert(tail =~= Seq::<char>::empty());
        (None, None, Seq::empty())
    } else {
        let signed = tail.skip(1);
        let has_sign = signed.len() > 0 && (signed[0] == '-' || signed[0] == '+');
        let digits = signed.skip(
            if has_sign {
                1
            } else {
                0
            },
        );
        assert(crate::charge::all_digits(digits));
        assert forall|i: int| 0 <= i < digits.len() implies '0' <= #[trigger] digits[i] <= '9' by {
            assert(crate::charge::is_digit(digits[i]));
        }
        if has_sign {
            assert(tail =~= seq![tail[0], signed[0]] + digits);
            (Some(tail[0]), Some(signed[0]), digits)
        } else {
            assert(tail =~= seq![tail[0]] + digits);
            (Some(tail[0]), None, digits)
        }
    }
}

/// Nothing is a valid charge but a spelled decimal number.
pub proof fn valid_charges_are_spelled_numbers(charge: Seq<char>) -> (spelling: Spelling)
    requires
        crate::charge::is_valid_charge(charge),
    ensures
        spelling.is_number(),
        spelling.text() == charge,
{
    let plus = charge.len() > 0 && charge[0] == '+';
    let body = if plus {
        charge.skip(1)
    } else {
        charge
    };
    let whole = crate::charge::leading_digits(body) as int;
    let rest = body.skip(whole);
    let point = rest.len() > 0 && rest[0] == '.';
    let start: int = if point {
        1
    } else {
        0
    };
    let places: int = if point {
        crate::charge::leading_digits(rest.skip(1)) as int
    } else {
        0
    };
    let fraction = rest.subrange(start, start + places);
    let tail = rest.skip(start + places);
    assert(crate::charge::exponent_of(tail) is Some);
    assert((body.take(whole) + fraction).len() > 0);
    let (mark, exponent_sign, exponent_digits) = exponent_is_spelled(tail);
    leading_digits_split(body);
    if point {
        leading_digits_split(rest.skip(1));
        assert(fraction =~= rest.skip(1).take(places));
        assert(rest =~= seq!['.'] + fraction + tail);
    } else {
        assert(fraction =~= Seq::<char>::empty());
        assert(rest =~= tail);
    }
    let spelling = Spelling {
        plus,
        whole: body.take(whole),
        point,
        fraction,
        mark,
        exponent_sign,
        exponent_digits,
    };
    assert(spelling.exponent_text() =~= tail);
    assert(spelling.fraction_text() + tail =~= rest);
    assert(body.take(whole) + rest =~= body);
    assert(spelling.sign_text() + body =~= charge);
    spelling
}

/// A valid charge is made of digits, signs, points and the letters `e` and `E`;
/// no other character, and so no word, is part of one.
pub proof fn valid_charges_hold_no_other_characters(charge: Seq<char>, i: int)
    requires
        crate::charge::is_valid_charge(charge),
        0 <= i < charge.len(),
    ensures
        '0' <= charge[i] <= '9' || charge[i] == '+' || charge[i] == '-' || charge[i] == '.'
            || charge[i] == 'e' || charge[i] == 'E',
{
    let spelling = valid_charges_are_spelled_numbers(charge);
    let sign = spelling.sign_text().len() as int;
    let whole = sign + spelling.whole.len();
    let fraction = whole + spelling.fraction_text().len();
    if i < sign {
    } else if i < whole {
        assert(charge[i] == spelling.whole[i - sign]);
    } else if i < fraction {
        assert(charge[i] == spelling.fraction_text()[i - whole]);
        if i > whole {
            assert(charge[i] == spelling.fraction[i - whole - 1]);
        }
    } else {
        assert(charge[i] == spelling.exponent_text()[i - fraction]);
        let head = spelling.exponent_text().len() - spelling.exponent_digits.len();
        if i - fraction >= head {
            assert(charge[i] == spelling.exponent_digits[i - fraction - head]);
        }
    }
}

/// A larger base gives a larger power.
proof fn power_grows_with_its_base(a: int, b: int, e: nat)
    requires
        0 < a <= b,
    ensures
        0 < vstd::arithmetic::power::pow(a, e) <= vstd::arithmetic::power::pow(b, e),
    decreases e,
{
    reveal(vstd::arithmetic::power::pow);
    if e > 0 {
        power_grows_with_its_base(a, b, (e - 1) as nat);
        let x = vstd::arithmetic::power::pow(a, (e - 1) as nat);
        let y = vstd::arithmetic::power::pow(b, (e - 1) as nat);
        assert(0 < a * x <= b * y) by (nonlinear_arith)
            requires
                0 < a <= b,
                0 < x <= y,
        ;
    }
}

/// `10^300 <= 2^1000`.
proof fn three_hundred_places_fit()
    ensures
        vstd::arithmetic::power::pow(10, 300) <= vstd::arithmetic::power::pow(2, 1000),
        vstd::arithmetic::power::pow(2, 1000) < vstd::arithmetic::power::pow(2, 1075),
        vstd::arithmetic::power::pow(2, 1000) <= 0x3F_FFFF_FFFF_FFFF
            * vstd::arithmetic::power::pow(2, 970),
{
    assert(vstd::arithmetic::power::pow(10, 3) == 1000 && vstd::arithmetic::power::pow(2, 10)
        == 1024) by {
        reveal_with_fuel(vstd::arithmetic::power::pow, 11);
    }
    power_grows_with_its_base(1000, 1024, 100);
    vstd::arithmetic::power::lemma_pow_multiplies(10, 3, 100);
    vstd::arithmetic::power::lemma_pow_multiplies(2, 10, 100);
    vstd::arithmetic::power::lemma_pow_strictly_increases(2, 1000, 1075);
    vstd::arithmetic::power::lemma_pow_adds(2, 30, 970);
    vstd::arithmetic::power::lemma_pow_positive(2, 970);
    assert(vstd::arithmetic::power::pow(2, 30) == 0x4000_0000) by {
        reveal_with_fuel(vstd::arithmetic::power::pow, 31);
    }
    let unit = vstd::arithmetic::power::pow(2, 970);
    assert(0x4000_0000 * unit <= 0x3F_FFFF_FFFF_FFFF * unit) by (nonlinear_arith)
        requires
            unit > 0,
    ;
}

/// Digits with or without a point, up to three hundred on each side of it, are a
/// valid charge exactly when one of them is not zero, wherever it stands.
pub proof fn plain_decimals_are_valid(whole: Seq<char>, point: bool, fraction: Seq<char>)
    requires
        only_digits(whole),
        only_digits(fraction),
        0 < whole.len() + fraction.len(),
        whole.len() <= 300,
        fraction.len() <= 300,
        !point ==> fraction.len() == 0,
    ensures
        crate::charge::is_valid_charge(
            if point {
                whole + seq!['.'] + fraction
            } else {
                whole
            },
        ) <==> {
            ||| exists|i: int| 0 <= i < whole.len() && #[trigger] whole[i] != '0'
            ||| exists|i: int| 0 <= i < fraction.len() && #[trigger] fraction[i] != '0'
        },
{
    let spelling = Spelling {
        plus: false,
        whole,
        point,
        fraction,
        mark: None,
        exponent_sign: None,
        exponent_digits: Seq::empty(),
    };
    let text = if point {
        whole + seq!['.'] + fraction
    } else {
        whole
    };
    assert(spelling.text() =~= text);
    charge_is_valid_in_the_range_of_doubles(spelling);
    let row = whole + fraction;
    digits_write_a_bounded_number(row);
    vstd::arithmetic::power::lemma_pow0(10);
    let n = spelling.digits();
    let twos = vstd::arithmetic::power::pow(2, 1075);
    let bound = 0x3F_FFFF_FFFF_FFFF * vstd::arithmetic::power::pow(2, 970);
    let unit = vstd::arithmetic::power::pow(10, fraction.len());
    let high = vstd::arithmetic::power::pow(10, whole.len());
    vstd::arithmetic::power::lemma_pow_positive(10, fraction.len());
    vstd::arithmetic::power::lemma_pow_increases(10, fraction.len(), 300);
    vstd::arithmetic::power::lemma_pow_increases(10, whole.len(), 300);
    vstd::arithmetic::power::lemma_pow_adds(10, whole.len(), fraction.len());
    three_hundred_places_fit();
    assert(n * 1 == n && unit * 1 == unit);
    assert(high * unit <= bound * unit) by (nonlinear_arith)
        requires
            high <= bound,
            unit > 0,
    ;
    assert(n > 0 ==> n * twos >= twos) by (nonlinear_arith)
        requires
            twos > 0,
    ;
    assert(n == 0 ==> n * twos == 0) by (nonlinear_arith);
    if n == 0 {
        assert forall|i: int| 0 <= i < whole.len() implies #[trigger] whole[i] == '0' by {
            assert(row[i] == '0');
        }
        assert forall|i: int| 0 <= i < fraction.len() implies #[trigger] fraction[i] == '0' by {
            assert(row[whole.len() + i] == '0');
        }
    } else {
        let k = choose|k: int| 0 <= k < row.len() && #[trigger] row[k] != '0';
        if k < whole.len() {
            assert(whole[k] != '0');
        } else {
            assert(fraction[k - whole.len()] != '0');
        }
    }
}

/// A zero appended behind the point, a zero put in front, a point without digits
/// behind it, a plus sign and the case of the exponent's letter do not change
/// whether a charge is valid.
pub proof fn spelling_of_one_number_does_not_matter(spelling: Spelling)
    requires
        spelling.is_number(),
    ensures
        spelling.point ==> crate::charge::is_valid_charge(
            Spelling { fraction: spelling.fraction.push('0'), ..spelling }.text(),
        ) == crate::charge::is_valid_charge(spelling.text()),
        crate::charge::is_valid_charge(
            Spelling { whole: seq!['0'] + spelling.whole, ..spelling }.text(),
        ) == crate::charge::is_valid_charge(spelling.text()),
        !spelling.point ==> crate::charge::is_valid_charge(
            Spelling { point: true, ..spelling }.text(),
        ) == crate::charge::is_valid_charge(spelling.text()),
        crate::charge::is_valid_charge(Spelling { plus: true, ..spelling }.text())
            == crate::charge::is_valid_charge(Spelling { plus: false, ..spelling }.text()),
        spelling.mark is Some ==> crate::charge::is_valid_charge(
            Spelling { mark: Some('e'), ..spelling }.text(),
        ) == crate::charge::is_valid_charge(Spelling { mark: Some('E'), ..spelling }.text()),
{
    charge_is_valid_in_the_range_of_doubles(spelling);
    charge_is_valid_in_the_range_of_doubles(Spelling { plus: true, ..spelling });
    charge_is_valid_in_the_range_of_doubles(Spelling { plus: false, ..spelling });
    if spelling.mark is Some {
        charge_is_valid_in_the_range_of_doubles(Spelling { mark: Some('e'), ..spelling });
        charge_is_valid_in_the_range_of_doubles(Spelling { mark: Some('E'), ..spelling });
    }
    if !spelling.point {
        charge_is_valid_in_the_range_of_doubles(Spelling { point: true, ..spelling });
    }
    let front = Spelling { whole: seq!['0'] + spelling.whole, ..spelling };
    charge_is_valid_in_the_range_of_doubles(front);
    let row = spelling.whole + spelling.fraction;
    assert(front.whole + front.fraction =~= seq!['0'] + row);
    digits_write_in_base_ten('0', seq!['0'], row);
    assert(0 * vstd::arithmetic::power::pow(10, row.len()) == 0);
    if spelling.point {
        let longer = Spelling { fraction: spelling.fraction.push('0'), ..spelling };
        charge_is_valid_in_the_range_of_doubles(longer);
        assert(longer.whole + longer.fraction =~= row + seq!['0']);
        digits_write_in_base_ten('0', row, seq!['0']);
        vstd::arithmetic::power::lemma_pow1(10);
        vstd::arithmetic::power::lemma_pow_adds(10, 1, spelling.fraction.len());
        let n = spelling.digits();
        let factor = spelling.factor();
        let divisor = spelling.divisor();
        let twos = vstd::arithmetic::power::pow(2, 1075);
        let bound = 0x3F_FFFF_FFFF_FFFF * vstd::arithmetic::power::pow(2, 970);
        assert(longer.digits() == n * 10);
        let unit = vstd::arithmetic::power::pow(10, spelling.fraction.len());
        let extra: int = if spelling.exponent_sign == Some('-') {
            vstd::arithmetic::power::pow(
                10,
                crate::charge::written_value(spelling.exponent_digits) as nat,
            )
        } else {
            1
        };
        assert((10 * unit) * extra == 10 * (unit * extra)) by (nonlinear_arith);
        assert(longer.divisor() == 10 * divisor);
        assert((n * factor * twos > divisor) == ((n * 10) * factor * twos > 10 * divisor))
            by (nonlinear_arith);
        assert((n * factor < bound * divisor) == ((n * 10) * factor < bound * (10 * divisor)))
            by (nonlinear_arith);
    }
}

/// Whether a charge is valid depends on nothing but the number that it writes:
/// two spellings of one number are both valid, or neither is.
pub proof fn only_the_number_matters(one: Spelling, other: Spelling)
    requires
        one.is_number(),
        other.is_number(),
        one.digits() * one.factor() * other.divisor() == other.digits() * other.factor()
            * one.divisor(),
    ensures
        crate::charge::is_valid_charge(one.text()) == crate::charge::is_valid_charge(other.text()),
{
    charge_is_valid_in_the_range_of_doubles(one);
    charge_is_valid_in_the_range_of_doubles(other);
    divisor_is_positive(one);
    divisor_is_positive(other);
    let twos = vstd::arithmetic::power::pow(2, 1075);
    let bound = 0x3F_FFFF_FFFF_FFFF * vstd::arithmetic::power::pow(2, 970);
    let a = one.digits() * one.factor();
    let b = other.digits() * other.factor();
    let c = one.divisor();
    let d = other.divisor();
    assert(a * twos * d == b * twos * c) by (nonlinear_arith)
        requires
            a * d == b * c,
    ;
    same_side(a * twos, c, b * twos, d, 1);
    same_side(a, c, b, d, bound);
}

proof fn divisor_is_positive(spelling: Spelling)
    ensures
        spelling.divisor() > 0,
{
    let e = crate::charge::written_value(spelling.exponent_digits) as nat;
    let unit = vstd::arithmetic::power::pow(10, spelling.fraction.len());
    let tens = vstd::arithmetic::power::pow(10, e);
    vstd::arithmetic::power::lemma_pow_positive(10, spelling.fraction.len());
    vstd::arithmetic::power::lemma_pow_positive(10, e);
    assert(unit * tens > 0 && unit * 1 > 0) by (nonlinear_arith)
        requires
            unit > 0,
            tens > 0,
    ;
}

/// Two equal fractions lie on the same side of a bound.
proof fn same_side(a: int, c: int, b: int, d: int, bound: int)
    requires
        c > 0,
        d > 0,
        a * d == b * c,
    ensures
        a > bound * c <==> b > bound * d,
        a < bound * c <==> b < bound * d,
{
    assert(a > bound * c <==> a * d > bound * c * d) by (nonlinear_arith)
        requires
            d > 0,
    ;
    assert(a < bound * c <==> a * d < bound * c * d) by (nonlinear_arith)
        requires
            d > 0,
    ;
    assert(b > bound * d <==> b * c > bound * d * c) by (nonlinear_arith)
        requires
            c > 0,
    ;
    assert(b < bound * d <==> b * c < bound * d * c) by (nonlinear_arith)
        requires
            c > 0,
    ;
    assert(bound * c * d == bound * d * c) by (nonlinear_arith);
}

} // verus!
