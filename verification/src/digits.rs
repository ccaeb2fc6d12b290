//! The digit type, its conversions and its four operations.

use crate::laws::lemma_times_is_product;
use crate::MathErrors;
use vstd::prelude::*;

verus! {

/// One decimal digit.
#[derive(Clone, Copy, Debug, PartialEq, Eq, Structural)]
pub enum Digits {
    Zero,
    One,
    Two,
    Three,
    Four,
    Five,
    Six,
    Seven,
    Eight,
    Nine,
}

impl View for Digits {
    type V = nat;

    /// The number that the digit stands for, from 0 to 9.
    open spec fn view(&self) -> nat {
        match self {
            Digits::Zero => 0,
            Digits::One => 1,
            Digits::Two => 2,
            Digits::Three => 3,
            Digits::Four => 4,
            Digits::Five => 5,
            Digits::Six => 6,
            Digits::Seven => 7,
            Digits::Eight => 8,
            Digits::Nine => 9,
        }
    }
}

impl Digits {
    /// The digit that stands for `n`. Every number above nine gives `Nine`.
    pub open spec fn of_nat(n: nat) -> Digits {
        if n == 0 {
            Digits::Zero
        } else if n == 1 {
            Digits::One
        } else if n == 2 {
            Digits::Two
        } else if n == 3 {
            Digits::Three
        } else if n == 4 {
            Digits::Four
        } else if n == 5 {
            Digits::Five
        } else if n == 6 {
            Digits::Six
        } else if n == 7 {
            Digits::Seven
        } else if n == 8 {
            Digits::Eight
        } else {
            Digits::Nine
        }
    }

    /// `n` taken as many times as the digit says: the product of the digit's
    /// number and `n`, written out digit by digit so that it can be worked
    /// out for a given digit without multiplying two unknowns.
    pub open spec fn times(self, n: nat) -> nat {
        match self {
            Digits::Zero => 0,
            Digits::One => n,
            Digits::Two => 2 * n,
            Digits::Three => 3 * n,
            Digits::Four => 4 * n,
            Digits::Five => 5 * n,
            Digits::Six => 6 * n,
            Digits::Seven => 7 * n,
            Digits::Eight => 8 * n,
            Digits::Nine => 9 * n,
        }
    }

    /// The digit's number as a machine integer.
    pub fn to_usize(self) -> (n: usize)
        ensures
            n == self@,
    {
        match self {
            Digits::Zero => 0,
            Digits::One => 1,
            Digits::Two => 2,
            Digits::Three => 3,
            Digits::Four => 4,
            Digits::Five => 5,
            Digits::Six => 6,
            Digits::Seven => 7,
            Digits::Eight => 8,
            Digits::Nine => 9,
        }
    }

    /// The digit as a character: `'0'` for zero up to `'9'` for nine.
    pub fn to_char(self) -> (c: char)
        ensures
            c as nat == '0' as nat + self@,
    {
        match self {
            Digits::Zero => '0',
            Digits::One => '1',
            Digits::Two => '2',
            Digits::Three => '3',
            Digits::Four => '4',
            Digits::Five => '5',
            Digits::Six => '6',
            Digits::Seven => '7',
            Digits::Eight => '8',
            Digits::Nine => '9',
        }
    }

    /// The digit that a character shows, for the ten characters `'0'` to
    /// `'9'`; nothing for any other character.
    pub fn from_char(c: char) -> (digit: Option<Digits>)
        ensures
            digit is Some <==> '0' <= c <= '9',
            digit matches Some(d) ==> c as nat == '0' as nat + d@,
    {
        match c {
            '0' => Some(Digits::Zero),
            '1' => Some(Digits::One),
            '2' => Some(Digits::Two),
            '3' => Some(Digits::Three),
            '4' => Some(Digits::Four),
            '5' => Some(Digits::Five),
            '6' => Some(Digits::Six),
            '7' => Some(Digits::Seven),
            '8' => Some(Digits::Eight),
            '9' => Some(Digits::Nine),
            _ => None,
        }
    }

    /// Adds `rhs` to `self`. The first digit of the result is the units digit
    /// of the sum; the second is the carry, `One` where the sum reaches ten
    /// and absent below that.
    pub fn add(self, rhs: Digits) -> (r: (Digits, Option<Digits>))
        ensures
            r.0@ + 10 * (if r.1 is Some { 1nat } else { 0nat }) == self@ + rhs@,
            r.1 is Some <==> self@ + rhs@ >= 10,
            r.1 is Some ==> r.1 == Some(Digits::One),
    {
        let sum: usize = self.to_usize() + rhs.to_usize();
        if sum >= 10 {
            (Digits::from((sum - 10) as u128), Some(Digits::One))
        } else {
            (Digits::from(sum as u128), None)
        }
    }

    /// Subtracts `rhs` from `self`. Where `self` is at least `rhs` the first
    /// digit is the difference and there is no borrow. Where it is smaller,
    /// the first digit is the difference with ten added, and the borrow `One`
    /// tells the caller to take one from the next column.
    pub fn subtract(self, rhs: Digits) -> (r: (Digits, Option<Digits>))
        ensures
            self@ >= rhs@ ==> r.1 is None && r.0@ == self@ - rhs@,
            self@ < rhs@ ==> r.1 == Some(Digits::One) && r.0@ == self@ + 10 - rhs@,
    {
        let left: usize = self.to_usize();
        let right: usize = rhs.to_usize();
        if left >= right {
            (Digits::from((left - right) as u128), None)
        } else {
            (Digits::from((left + 10 - right) as u128), Some(Digits::One))
        }
    }

    /// Multiplies `self` by `rhs`. The first digit of the result is the units
    /// digit of the product; the second is its tens digit as the carry,
    /// absent where the product is below ten. The product is written
    /// `self.times(rhs@)`, which is `self@ * rhs@`, as
    /// `lemma_times_is_product` shows.
    pub fn multiply(self, rhs: Digits) -> (r: (Digits, Option<Digits>))
        ensures
            r.0@ + 10 * second_value(r.1) == self.times(rhs@),
            r.1 is Some ==> 1 <= second_value(r.1) <= 8,
    {
        let left: usize = self.to_usize();
        let right: usize = rhs.to_usize();
        proof {
            lemma_times_is_product(self, rhs@);
        }
        assert(left * right <= 81) by (nonlinear_arith)
            requires
                left <= 9,
                right <= 9,
        ;
        let product: usize = left * right;
        let units: Digits = Digits::from((product % 10) as u128);
        if product >= 10 {
            (units, Some(Digits::from((product / 10) as u128)))
        } else {
            (units, None)
        }
    }

    /// Divides `self` by `rhs`. Division by the zero digit fails, whatever
    /// the dividend, zero included. Otherwise the first digit of the result
    /// is the whole quotient and the second is the remainder, absent where
    /// the division is exact. That divisor times quotient plus remainder
    /// gives back the dividend is said twice, once with `*` and once through
    /// `times`, which can be worked out for a given divisor.
    pub fn divide(self, rhs: Digits) -> (r: Result<(Digits, Option<Digits>), MathErrors>)
        ensures
            r is Err <==> rhs == Digits::Zero,
            r is Err ==> r == Err::<(Digits, Option<Digits>), MathErrors>(
                MathErrors::DivisionByZero,
            ),
            r matches Ok((quotient, remainder)) ==> {
                &&& self@ == rhs@ * quotient@ + second_value(remainder)
                &&& self@ == rhs.times(quotient@) + second_value(remainder)
                &&& quotient@ == self@ / rhs@
                &&& second_value(remainder) == self@ % rhs@
                &&& second_value(remainder) < rhs@
                &&& remainder is Some ==> second_value(remainder) > 0
            },
    {
        let left: usize = self.to_usize();
        let right: usize = rhs.to_usize();
        if right == 0 {
            return Err(MathErrors::DivisionByZero);
        }
        let quotient: usize = left / right;
        let rest: usize = left % right;
        proof {
            vstd::arithmetic::div_mod::lemma_fundamental_div_mod(left as int, right as int);
            lemma_times_is_product(rhs, quotient as nat);
        }
        if rest == 0 {
            Ok((Digits::from(quotient as u128), None))
        } else {
            Ok((Digits::from(quotient as u128), Some(Digits::from(rest as u128))))
        }
    }
}

/// The number that an optional second digit stands for: that of the digit
/// where there is one, zero where there is none.
pub open spec fn second_value(digit: Option<Digits>) -> nat {
    match digit {
        Some(d) => d@,
        None => 0,
    }
}

/// Conversion from an integer. It never fails: 0 to 9 give the digit of that
/// number, and every larger input gives `Nine`.
impl From<u128> for Digits {
    fn from(input: u128) -> (digit: Digits) {
        if input == 0 {
            return Digits::Zero;
        }
        if input == 1 {
            return Digits::One;
        }
        if input == 2 {
            return Digits::Two;
        }
        if input == 3 {
            return Digits::Three;
        }
        if input == 4 {
            return Digits::Four;
        }
        if input == 5 {
            return Digits::Five;
        }
        if input == 6 {
            return Digits::Six;
        }
        if input == 7 {
            return Digits::Seven;
        }
        if input == 8 {
            return Digits::Eight;
        }
        Digits::Nine
    }
}

impl vstd::std_specs::convert::FromSpecImpl<u128> for Digits {
    open spec fn obeys_from_spec() -> bool {
        true
    }

    open spec fn from_spec(input: u128) -> Digits {
        Digits::of_nat(input as nat)
    }
}

} // verus!
