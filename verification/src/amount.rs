//! Money as a fixed-point decimal.
//!
//! An [`Amount`] counts ten-billionths of the currency unit, so that every
//! decimal with up to ten fractional digits is held exactly and the question
//! "does this value have more than two decimal places?" has an exact answer.

use crate::text::{
    all_digits, chars_of, count_leading, count_trailing, decimal, decimal_of, digit_char,
    digit_to_char, digit_value, digits_to_number, is_digit, leading, lemma_leading, lemma_trailing_bounds,
    number_of, only_digits, pow10, push_char, slice_of, trailing, trim_end_of, CharClass,
};
use vstd::prelude::*;
use vstd::string::StringExecFns;

verus! {

/// How many units of an [`Amount`] make one unit of the currency.
pub const SCALE: i128 = 10_000_000_000;

/// How many units of an [`Amount`] make one hundredth of the currency unit.
pub const CENT: i128 = 100_000_000;

/// How many fractional digits an [`Amount`] holds.
pub const FRACTION_DIGITS: usize = 10;

/// How many digits the integer part of a decimal text may have.
pub const WHOLE_DIGITS: usize = 18;

/// A sum of money: `units` ten-billionths of the currency unit.
#[derive(Debug, Clone, Copy, PartialEq, Eq, Structural)]
pub struct Amount {
    /// The value times ten to the tenth.
    pub units: i128,
}

/// `s` with zeros added at its end up to the length `width`.
pub open spec fn zero_padded(s: Seq<char>, width: nat) -> Seq<char> {
    s + Seq::new((width - s.len()) as nat, |i: int| '0')
}

/// The last `width` decimal digits of `n`, with leading zeros.
pub open spec fn fixed_digits(n: nat, width: nat) -> Seq<char>
    decreases width,
{
    if width == 0 {
        Seq::empty()
    } else {
        fixed_digits(n / 10, (width - 1) as nat).push(digit_char((n % 10) as int))
    }
}

/// What an unsigned decimal text denotes, in ten-billionths: an integer part
/// of 1 to 18 digits, then nothing, or a point and up to ten digits.
pub open spec fn unsigned_value(s: Seq<char>) -> Option<int> {
    let cut = leading(s, CharClass::Except('.')) as int;
    let whole = s.take(cut);
    let fraction = if cut < s.len() {
        s.skip(cut + 1)
    } else {
        Seq::empty()
    };
    if 1 <= whole.len() <= WHOLE_DIGITS && all_digits(whole) && fraction.len() <= FRACTION_DIGITS
        && all_digits(fraction) {
        Some(number_of(whole) * SCALE + number_of(zero_padded(fraction, FRACTION_DIGITS as nat)))
    } else {
        None
    }
}

/// What a decimal text denotes, in ten-billionths: an unsigned decimal, or a
/// minus sign and an unsigned decimal.
pub open spec fn decimal_value(s: Seq<char>) -> Option<int> {
    if s.len() > 0 && s[0] == '-' {
        match unsigned_value(s.skip(1)) {
            Some(v) => Some(-v),
            None => None,
        }
    } else {
        unsigned_value(s)
    }
}

/// The shortest decimal text of a number of ten-billionths: a minus sign if
/// it is negative, the integer part, and the fraction without its trailing
/// zeros if there is one.
pub open spec fn decimal_text(units: int) -> Seq<char> {
    let magnitude = if units < 0 {
        -units
    } else {
        units
    };
    let sign = if units < 0 {
        seq!['-']
    } else {
        Seq::empty()
    };
    let whole = decimal_of((magnitude / SCALE as int) as nat);
    let fraction = trim_end_of(
        fixed_digits((magnitude % SCALE as int) as nat, FRACTION_DIGITS as nat),
        CharClass::Exactly('0'),
    );
    if fraction.len() == 0 {
        sign + whole
    } else {
        sign + whole + seq!['.'] + fraction
    }
}

/// Padding with zeros keeps digits digits.
pub proof fn lemma_zero_padded_digits(s: Seq<char>, width: nat)
    requires
        all_digits(s),
        s.len() <= width,
    ensures
        all_digits(zero_padded(s, width)),
        zero_padded(s, width).len() == width,
{
}

/// The decimal digits of a number are digits, at least one and no more
/// than the number calls for, and denote the number.
pub proof fn lemma_decimal_of(n: nat, width: nat)
    requires
        width >= 1,
        n < pow10(width),
    ensures
        1 <= decimal_of(n).len() <= width,
        all_digits(decimal_of(n)),
        number_of(decimal_of(n)) == n,
    decreases n,
{
    reveal_with_fuel(pow10, 2);
    if n >= 10 {
        if width == 1 {
            assert(pow10(1) == 10);
        } else {
            lemma_decimal_of(n / 10, (width - 1) as nat);
        }
        let rest = decimal_of(n / 10);
        let all = decimal_of(n);
        assert(all == rest.push(digit_char((n % 10) as int)));
        assert(all.drop_last() =~= rest);
        assert(all.last() == digit_char((n % 10) as int));
        assert(digit_value(digit_char((n % 10) as int)) == n % 10);
        assert(number_of(all) == number_of(all.drop_last()) * 10 + digit_value(all.last()));
        assert forall|i: int| 0 <= i < all.len() implies is_digit(#[trigger] all[i]) by {
            if i < rest.len() {
                assert(all[i] == rest[i]);
            }
        }
    } else {
        let one = decimal_of(n);
        assert(one.drop_last() =~= Seq::<char>::empty());
        assert(one.last() == digit_char(n as int));
        assert(digit_value(digit_char(n as int)) == n);
        assert(number_of(one.drop_last()) == 0);
        assert(number_of(one) == number_of(one.drop_last()) * 10 + digit_value(one.last()));
    }
}

/// The last digits of a number that has no more digits than are asked for
/// denote the number.
pub proof fn lemma_fixed_digits(n: nat, width: nat)
    requires
        n < pow10(width),
    ensures
        fixed_digits(n, width).len() == width,
        all_digits(fixed_digits(n, width)),
        number_of(fixed_digits(n, width)) == n,
    decreases width,
{
    if width > 0 {
        lemma_fixed_digits(n / 10, (width - 1) as nat);
        let rest = fixed_digits(n / 10, (width - 1) as nat);
        let all = fixed_digits(n, width);
        assert(all.drop_last() =~= rest);
        assert(all.last() == digit_char((n % 10) as int));
        assert(digit_value(digit_char((n % 10) as int)) == n % 10);
        assert forall|i: int| 0 <= i < all.len() implies is_digit(#[trigger] all[i]) by {
            if i < rest.len() {
                assert(all[i] == rest[i]);
            }
        }
    }
}

/// Digits without the zeros at their end, padded with zeros to their old
/// length, are the digits again.
pub proof fn lemma_trimmed_zeros_return(digits: Seq<char>)
    ensures
        zero_padded(trim_end_of(digits, CharClass::Exactly('0')), digits.len()) == digits,
{
    lemma_trailing_bounds(digits, CharClass::Exactly('0'));
    assert(zero_padded(trim_end_of(digits, CharClass::Exactly('0')), digits.len()) =~= digits);
}

/// What is written for a number below ten to the 28th is read back as the
/// number: an amount of up to 18 digits before the point goes through its
/// text unchanged.
pub proof fn lemma_text_reads_back(units: int)
    requires
        -10_000_000_000_000_000_000_000_000_000 < units < 10_000_000_000_000_000_000_000_000_000,
    ensures
        decimal_value(decimal_text(units)) == Some(units),
{
    reveal_with_fuel(pow10, 19);
    let magnitude = if units < 0 {
        -units
    } else {
        units
    };
    let high = (magnitude / SCALE as int) as nat;
    let low = (magnitude % SCALE as int) as nat;
    assert(pow10(18) == 1_000_000_000_000_000_000);
    assert(pow10(10) == 10_000_000_000);
    lemma_decimal_of(high, 18);
    lemma_fixed_digits(low, 10);
    let whole = decimal_of(high);
    let digits = fixed_digits(low, 10);
    let fraction = trim_end_of(digits, CharClass::Exactly('0'));
    lemma_trimmed_zeros_return(digits);
    lemma_trailing_bounds(digits, CharClass::Exactly('0'));
    assert forall|i: int| 0 <= i < fraction.len() implies is_digit(#[trigger] fraction[i]) by {
        assert(fraction[i] == digits[i]);
    }
    let unsigned = if fraction.len() == 0 {
        whole
    } else {
        whole + seq!['.'] + fraction
    };
    // The integer part ends where the text ends or the point stands.
    let class = CharClass::Except('.');
    assert forall|j: int| 0 <= j < whole.len() implies class.holds(#[trigger] unsigned[j]) by {
        assert(unsigned[j] == whole[j]);
        assert(is_digit(whole[j]));
    }
    if fraction.len() > 0 {
        assert(unsigned[whole.len() as int] == '.');
    }
    lemma_leading(unsigned, class, whole.len() as int);
    assert(unsigned.take(whole.len() as int) =~= whole);
    if fraction.len() > 0 {
        assert(unsigned.skip(whole.len() as int + 1) =~= fraction);
    } else {
        assert(fraction =~= Seq::<char>::empty());
    }
    assert(unsigned_value(unsigned) == Some(magnitude));
    assert(is_digit(whole[0]));
    if units < 0 {
        let text = seq!['-'] + unsigned;
        assert(decimal_text(units) =~= text);
        assert(text.skip(1) =~= unsigned);
    } else {
        assert(decimal_text(units) =~= unsigned);
        assert(unsigned[0] == whole[0]);
    }
}

impl Amount {
    /// The amount of so many ten-billionths.
    pub fn from_units(units: i128) -> (a: Amount)
        ensures
            a.units == units,
    {
        Amount { units }
    }

    /// The amount of so many hundredths of the currency unit.
    pub fn from_cents(cents: i64) -> (a: Amount)
        ensures
            a.units == cents * CENT,
    {
        Amount { units: (cents as i128) * CENT }
    }

    /// Whether the amount is above zero.
    pub fn is_positive(&self) -> (b: bool)
        ensures
            b == (self.units > 0),
    {
        self.units > 0
    }

    /// Whether the amount is a whole number of hundredths, that is, whether
    /// it has at most two decimal places.
    pub fn is_whole_cents(&self) -> (b: bool)
        ensures
            b == (self.units as int % CENT as int == 0),
    {
        self.units % CENT == 0
    }

    /// Reads a decimal text such as `149.99` or `-0.5`.
    pub fn parse(text: &str) -> (r: Option<Amount>)
        ensures
            match r {
                Some(a) => decimal_value(text@) == Some(a.units as int),
                None => decimal_value(text@) is None,
            },
    {
        let chars = chars_of(text);
        if chars.len() > 0 && chars[0] == '-' {
            let rest = slice_of(&chars, 1, chars.len());
            assert(rest@ =~= text@.skip(1));
            match Self::parse_unsigned(&rest) {
                Some(v) => Some(Amount { units: -v }),
                None => None,
            }
        } else {
            match Self::parse_unsigned(&chars) {
                Some(v) => Some(Amount { units: v }),
                None => None,
            }
        }
    }

    /// Reads an unsigned decimal.
    fn parse_unsigned(chars: &Vec<char>) -> (r: Option<i128>)
        ensures
            match r {
                Some(v) => unsigned_value(chars@) == Some(v as int) && 0 <= v
                    < 10_000_000_000_000_000_000_000_000_000,
                None => unsigned_value(chars@) is None,
            },
    {
        let cut = count_leading(chars, CharClass::Except('.'));
        let whole = slice_of(chars, 0, cut);
        assert(whole@ =~= chars@.take(cut as int));
        let mut fraction = if cut < chars.len() {
            slice_of(chars, cut + 1, chars.len())
        } else {
            Vec::new()
        };
        proof {
            if cut < chars.len() {
                assert(fraction@ =~= chars@.skip(cut + 1));
            } else {
                assert(fraction@ =~= Seq::<char>::empty());
            }
        }
        if whole.len() < 1 || whole.len() > WHOLE_DIGITS || !only_digits(&whole) {
            return None;
        }
        if fraction.len() > FRACTION_DIGITS || !only_digits(&fraction) {
            return None;
        }
        let ghost given = fraction@;
        while fraction.len() < FRACTION_DIGITS
            invariant
                fraction@.len() <= FRACTION_DIGITS,
                given.len() <= fraction@.len(),
                fraction@ == given + Seq::new((fraction@.len() - given.len()) as nat, |i: int| '0'),
                all_digits(given),
            decreases FRACTION_DIGITS - fraction.len(),
        {
            fraction.push('0');
            assert(fraction@ =~= given + Seq::new(
                (fraction@.len() - given.len()) as nat,
                |i: int| '0',
            ));
        }
        assert(fraction@ == zero_padded(given, FRACTION_DIGITS as nat));
        proof {
            lemma_zero_padded_digits(given, FRACTION_DIGITS as nat);
            reveal_with_fuel(pow10, 11);
        }
        let w = digits_to_number(&whole);
        let f = digits_to_number(&fraction);
        assert(f < 10_000_000_000) by {
            reveal_with_fuel(pow10, 11);
        }
        Some((w as i128) * SCALE + (f as i128))
    }

    /// Writes the amount as the shortest decimal text that denotes it.
    pub fn to_text(&self) -> (s: String)
        ensures
            s@ == decimal_text(self.units as int),
    {
        let negative = self.units < 0;
        let magnitude: u128 = if self.units >= 0 {
            self.units as u128
        } else {
            (-(self.units + 1)) as u128 + 1
        };
        let scale: u128 = SCALE as u128;
        let whole = decimal(magnitude / scale);
        let mut digits: Vec<char> = Vec::new();
        let mut rest: u128 = magnitude % scale;
        let ghost low = rest as nat;
        // The ten digits of the fraction, the last one first.
        let mut k: usize = 0;
        while k < FRACTION_DIGITS
            invariant
                k <= FRACTION_DIGITS,
                digits@.len() == k,
                fixed_digits(low, FRACTION_DIGITS as nat) == fixed_digits(
                    rest as nat,
                    (FRACTION_DIGITS - k) as nat,
                ) + digits@.reverse(),
            decreases FRACTION_DIGITS - k,
        {
            let ghost before = digits@;
            digits.push(digit_to_char((rest % 10) as u8));
            proof {
                let d = digit_char((rest % 10) as int);
                assert(digits@.reverse() =~= seq![d] + before.reverse());
                assert(fixed_digits(rest as nat, (FRACTION_DIGITS - k) as nat) == fixed_digits(
                    (rest / 10) as nat,
                    (FRACTION_DIGITS - k - 1) as nat,
                ).push(d));
                assert(fixed_digits((rest / 10) as nat, (FRACTION_DIGITS - k - 1) as nat).push(d)
                    + before.reverse() =~= fixed_digits(
                    (rest / 10) as nat,
                    (FRACTION_DIGITS - k - 1) as nat,
                ) + (seq![d] + before.reverse()));
            }
            rest = rest / 10;
            k += 1;
        }
        let mut ordered: Vec<char> = Vec::new();
        let mut i: usize = digits.len();
        while i > 0
            invariant
                i <= digits.len(),
                ordered@ == digits@.reverse().take(digits.len() - i),
            decreases i,
        {
            i -= 1;
            ordered.push(digits[i]);
            assert(digits@.reverse().take(digits.len() - i) =~= digits@.reverse().take(
                digits.len() - i - 1,
            ).push(digits@[i as int]));
        }
        proof {
            assert(digits@.reverse().take(digits@.len() as int) =~= digits@.reverse());
            assert(fixed_digits(rest as nat, 0) =~= Seq::<char>::empty());
            assert(ordered@ =~= fixed_digits(low, FRACTION_DIGITS as nat));
        }
        let zeros = count_trailing(&ordered, CharClass::Exactly('0'));
        let ghost sign = if negative {
            seq!['-']
        } else {
            Seq::<char>::empty()
        };
        let mut s = String::new();
        if negative {
            push_char(&mut s, '-');
        }
        assert(s@ =~= sign);
        let mut s = s.concat(whole.as_str());
        if zeros < ordered.len() {
            push_char(&mut s, '.');
            let mut j: usize = 0;
            let ghost head = s@;
            while j < ordered.len() - zeros
                invariant
                    zeros < ordered.len(),
                    j <= ordered.len() - zeros,
                    s@ == head + ordered@.take(j as int),
                decreases ordered.len() - zeros - j,
            {
                push_char(&mut s, ordered[j]);
                assert(ordered@.take(j + 1) =~= ordered@.take(j as int).push(ordered@[j as int]));
                assert(head + ordered@.take(j as int).push(ordered@[j as int]) =~= (head
                    + ordered@.take(j as int)).push(ordered@[j as int]));
                j += 1;
            }
            assert(s@ =~= head + trim_end_of(ordered@, CharClass::Exactly('0')));
        }
        proof {
            if zeros < ordered.len() {
                assert(s@ =~= sign + whole@ + seq!['.'] + trim_end_of(
                    ordered@,
                    CharClass::Exactly('0'),
                ));
            } else {
                assert(trim_end_of(ordered@, CharClass::Exactly('0')).len() == 0);
                assert(s@ =~= sign + whole@);
            }
        }
        s
    }

    /// The sum of two amounts, if it can be held.
    pub fn checked_add(&self, other: &Amount) -> (r: Option<Amount>)
        ensures
            match r {
                Some(a) => a.units == self.units + other.units,
                None => self.units + other.units > i128::MAX || self.units + other.units
                    < i128::MIN,
            },
    {
        match self.units.checked_add(other.units) {
            Some(units) => Some(Amount { units }),
            None => None,
        }
    }

    /// The amount taken `times` times, if that can be held.
    pub fn checked_mul(&self, times: i32) -> (r: Option<Amount>)
        ensures
            match r {
                Some(a) => a.units == self.units * times,
                None => self.units * times > i128::MAX || self.units * times < i128::MIN,
            },
    {
        match self.units.checked_mul(times as i128) {
            Some(units) => Some(Amount { units }),
            None => None,
        }
    }
}

} // verus!
