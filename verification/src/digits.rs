//! Splitting a number into the four decimal digits of the display.

use vstd::prelude::*;

verus! {

/// The four digits that show `n`: thousands, hundreds, tens and units,
/// leading zeros kept.
pub open spec fn decimal_digits(n: int) -> Seq<int> {
    seq![n / 1000, n / 100 % 10, n / 10 % 10, n % 10]
}

/// The hundreds digit can be read off the remainder by 1000, and that
/// remainder has the tens and units of the number.
proof fn lemma_hundreds(n: int)
    requires
        0 <= n,
    ensures
        n % 1000 / 100 == n / 100 % 10,
        n % 1000 % 100 == n % 100,
{
    let q = n / 1000;
    let r = n % 1000;
    let a = r / 100;
    let b = r % 100;
    assert(n == (10 * q + a) * 100 + b);
    vstd::arithmetic::div_mod::lemma_fundamental_div_mod_converse(n, 100, 10 * q + a, b);
    assert(10 * q + a == q * 10 + a);
    vstd::arithmetic::div_mod::lemma_fundamental_div_mod_converse(10 * q + a, 10, q, a);
}

/// The tens digit can be read off the remainder by 100, and that remainder
/// has the units of the number.
proof fn lemma_tens(n: int)
    requires
        0 <= n,
    ensures
        n % 100 / 10 == n / 10 % 10,
        n % 100 % 10 == n % 10,
{
    let q = n / 100;
    let r = n % 100;
    let a = r / 10;
    let b = r % 10;
    assert(n == (10 * q + a) * 10 + b);
    vstd::arithmetic::div_mod::lemma_fundamental_div_mod_converse(n, 10, 10 * q + a, b);
    assert(10 * q + a == q * 10 + a);
    vstd::arithmetic::div_mod::lemma_fundamental_div_mod_converse(10 * q + a, 10, q, a);
}

/// The digits of a number of at most four places are decimal digits, and
/// weighted by their places they add up to the number.
pub proof fn lemma_digits_spell_number(n: int)
    requires
        0 <= n <= 9999,
    ensures
        forall|i: int| 0 <= i < 4 ==> 0 <= #[trigger] decimal_digits(n)[i] <= 9,
        n == 1000 * decimal_digits(n)[0] + 100 * decimal_digits(n)[1] + 10 * decimal_digits(n)[2]
            + decimal_digits(n)[3],
{
    lemma_hundreds(n);
    lemma_tens(n);
}

/// Get digits from a 4-digit number
///
/// Splits `number` into thousands, hundreds, tens and units by dividing by
/// 1000, 100 and 10 in turn and going on with the remainder.
pub fn get_digits(number: u16) -> (digits: [u8; 4])
    ensures
        digits@.len() == 4,
        forall|i: int| 0 <= i < 4 ==> digits@[i] as int == decimal_digits(number as int)[i],
        number <= 9999 ==> forall|i: int| 0 <= i < 4 ==> digits@[i] <= 9,
{
    let mut data: u16 = number;
    let thousands: u8 = (data / 1000) as u8;
    data = data % 1000;
    let hundreds: u8 = (data / 100) as u8;
    data = data % 100;
    let tens: u8 = (data / 10) as u8;
    data = data % 10;
    let units: u8 = data as u8;
    proof {
        lemma_hundreds(number as int);
        lemma_tens(number as int);
    }
    [thousands, hundreds, tens, units]
}

} // verus!
