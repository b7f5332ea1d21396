//! Fixed-point money amounts and scale types.

use vstd::prelude::*;

use crate::ledger_core::error::LedgerError;
use crate::ledger_core::text::{decimal_string, push_decimal, push_char, spec_decimal, pad_zeros};

verus! {

/// Maximum supported decimal places.
pub const MAX_SCALE: u8 = 18;

/// `10` raised to the power `n`.
pub open spec fn pow10(n: nat) -> nat
    decreases n,
{
    if n == 0 {
        1
    } else {
        10 * pow10((n - 1) as nat)
    }
}

/// Decimal scale factor for an amount.
///
/// Typical scales: USD (2), USDC (6), BTC (8), ETH (18).
#[derive(Copy, Clone, Debug, PartialEq, Eq, PartialOrd, Ord, Hash, Structural)]
pub struct Scale(u8);

impl View for Scale {
    type V = u8;

    closed spec fn view(&self) -> u8 {
        self.0
    }
}

impl Scale {
    /// The scale with the given number of decimal places, whatever its value.
    pub closed spec fn from_spec(places: u8) -> Scale {
        Scale(places)
    }

    /// Create a new scale, up to 18 decimal places.
    pub fn new(scale: u8) -> (r: Result<Self, LedgerError>)
        ensures
            scale <= MAX_SCALE ==> r == Ok::<Scale, LedgerError>(Scale::from_spec(scale)),
            scale > MAX_SCALE ==> r == Err::<Scale, LedgerError>(LedgerError::InvalidScale(scale)),
    {
        if scale > MAX_SCALE {
            Err(LedgerError::InvalidScale(scale))
        } else {
            Ok(Self(scale))
        }
    }

    /// US Dollars (2 decimals / cents).
    pub fn usd() -> (r: Self)
        ensures
            r@ == 2,
    {
        Self(2)
    }

    /// USDC on Solana (6 decimals).
    pub fn usdc() -> (r: Self)
        ensures
            r@ == 6,
    {
        Self(6)
    }

    /// Bitcoin (8 decimals / satoshis).
    pub fn btc() -> (r: Self)
        ensures
            r@ == 8,
    {
        Self(8)
    }

    /// Ethereum (18 decimals / wei).
    pub fn eth() -> (r: Self)
        ensures
            r@ == 18,
    {
        Self(18)
    }

    /// Get the raw number of decimal places.
    pub fn as_u8(self) -> (r: u8)
        ensures
            r == self@,
    {
        self.0
    }

    /// Multiplier for this scale (e.g. 100 for 2 decimals).
    pub fn multiplier(self) -> (r: Result<u128, LedgerError>)
        ensures
            pow10(self@ as nat) <= u128::MAX ==> r == Ok::<u128, LedgerError>(pow10(self@ as nat) as u128),
            pow10(self@ as nat) > u128::MAX ==> r == Err::<u128, LedgerError>(LedgerError::ArithmeticOverflow),
    {
        let mut acc: u128 = 1;
        let mut i: u8 = 0;
        while i < self.0
            invariant
                i <= self@,
                acc == pow10(i as nat),
            decreases self@ - i,
        {
            if acc > u128::MAX / 10 {
                proof {
                    lemma_pow10_monotone((i + 1) as nat, self@ as nat);
                }
                return Err(LedgerError::ArithmeticOverflow);
            }
            acc = acc * 10;
            i = i + 1;
        }
        Ok(acc)
    }
}

/// `pow10` never decreases as its exponent grows.
pub proof fn lemma_pow10_monotone(a: nat, b: nat)
    requires
        a <= b,
    ensures
        pow10(a) <= pow10(b),
    decreases b - a,
{
    if a < b {
        lemma_pow10_monotone(a, (b - 1) as nat);
        assert(pow10(b) == 10 * pow10((b - 1) as nat));
    }
}

/// Unsigned money amount in base units (e.g. cents for USD).
///
/// The inner `u128` is private: amounts are only created through
/// [`Amount::new`]/`From<u128>` and changed through the checked arithmetic
/// methods.
#[derive(Copy, Clone, Debug, PartialEq, Eq, PartialOrd, Ord, Hash, Structural)]
pub struct Amount(u128);

impl View for Amount {
    type V = u128;

    closed spec fn view(&self) -> u128 {
        self.0
    }
}

/// Facts tying an amount to its number of base units.
pub broadcast proof fn lemma_amount_from_spec_view(v: u128)
    ensures
        #[trigger] Amount::from_spec(v)@ == v,
{
}

/// An amount is determined by its number of base units.
pub broadcast proof fn lemma_amount_view_from_spec(a: Amount)
    ensures
        #[trigger] Amount::from_spec(a@) == a,
{
}

/// Facts tying a scale to its number of decimal places.
pub broadcast proof fn lemma_scale_from_spec_view(v: u8)
    ensures
        #[trigger] Scale::from_spec(v)@ == v,
{
}

/// A scale is determined by its number of decimal places.
pub broadcast proof fn lemma_scale_view_from_spec(s: Scale)
    ensures
        #[trigger] Scale::from_spec(s@) == s,
{
}

/// The facts that relate amounts and scales to their raw values.
pub broadcast group group_amount {
    lemma_amount_from_spec_view,
    lemma_amount_view_from_spec,
    lemma_scale_from_spec_view,
    lemma_scale_view_from_spec,
}

/// Two amounts are equal exactly when their base units are.
pub proof fn lemma_amount_eq(a: Amount, b: Amount)
    ensures
        (a == b) == (a@ == b@),
{
    broadcast use group_amount;
    if a@ == b@ {
        assert(Amount::from_spec(a@) == a);
        assert(Amount::from_spec(b@) == b);
    }
}

impl Default for Scale {
    fn default() -> (r: Self)
        ensures
            r@ == 0,
    {
        Scale(0)
    }
}

impl Default for Amount {
    fn default() -> (r: Self)
        ensures
            r@ == 0,
    {
        Amount(0)
    }
}

/// The decimal rendering of `units` with `places` fractional digits.
pub open spec fn spec_format_with_scale(units: nat, places: nat) -> Seq<char> {
    if places == 0 {
        spec_decimal(units)
    } else {
        spec_decimal(units / pow10(places)) + seq!['.'] + pad_zeros(spec_decimal(units % pow10(places)), places)
    }
}

impl Amount {
    /// The amount with the given number of base units.
    pub closed spec fn from_spec(units: u128) -> Amount {
        Amount(units)
    }

    /// Zero amount.
    pub fn zero() -> (r: Self)
        ensures
            r@ == 0,
    {
        Amount(0)
    }

    /// Create an amount from raw base units.
    pub fn new(units: u128) -> (r: Self)
        ensures
            r@ == units,
    {
        Self(units)
    }

    /// Get the raw u128 value.
    pub fn as_u128(self) -> (r: u128)
        ensures
            r == self@,
    {
        self.0
    }

    /// Returns true if the amount is zero.
    pub fn is_zero(self) -> (r: bool)
        ensures
            r == (self@ == 0),
    {
        self.0 == 0
    }

    /// Add two amounts, returning an error on overflow.
    pub fn checked_add(self, other: Self) -> (r: Result<Self, LedgerError>)
        ensures
            self@ + other@ <= u128::MAX ==> r == Ok::<Amount, LedgerError>(Amount::from_spec((self@ + other@) as u128)),
            self@ + other@ > u128::MAX ==> r == Err::<Amount, LedgerError>(LedgerError::ArithmeticOverflow),
    {
        match self.0.checked_add(other.0) {
            Some(v) => Ok(Self(v)),
            None => Err(LedgerError::ArithmeticOverflow),
        }
    }

    /// Subtract two amounts, returning an error on underflow.
    pub fn checked_sub(self, other: Self) -> (r: Result<Self, LedgerError>)
        ensures
            other@ <= self@ ==> r == Ok::<Amount, LedgerError>(Amount::from_spec((self@ - other@) as u128)),
            other@ > self@ ==> r == Err::<Amount, LedgerError>(LedgerError::ArithmeticOverflow),
    {
        match self.0.checked_sub(other.0) {
            Some(v) => Ok(Self(v)),
            None => Err(LedgerError::ArithmeticOverflow),
        }
    }

    /// Multiply by an integer, returning an error on overflow.
    pub fn checked_mul(self, factor: u128) -> (r: Result<Self, LedgerError>)
        ensures
            self@ * factor <= u128::MAX ==> r == Ok::<Amount, LedgerError>(Amount::from_spec((self@ * factor) as u128)),
            self@ * factor > u128::MAX ==> r == Err::<Amount, LedgerError>(LedgerError::ArithmeticOverflow),
    {
        match self.0.checked_mul(factor) {
            Some(v) => Ok(Self(v)),
            None => Err(LedgerError::ArithmeticOverflow),
        }
    }

    /// Divide by an integer, returning an error on division by zero.
    pub fn checked_div(self, divisor: u128) -> (r: Result<Self, LedgerError>)
        ensures
            divisor != 0 ==> r == Ok::<Amount, LedgerError>(Amount::from_spec(self@ / divisor)),
            divisor == 0 ==> r == Err::<Amount, LedgerError>(LedgerError::DivisionByZero),
    {
        if divisor == 0 {
            Err(LedgerError::DivisionByZero)
        } else {
            Ok(Self(self.0 / divisor))
        }
    }

    /// Format as a decimal string (e.g. 100 with scale 2 becomes "1.00").
    pub fn format_with_scale(self, scale: Scale) -> (s: String)
        requires
            pow10(scale@ as nat) <= u128::MAX,
        ensures
            s@ == spec_format_with_scale(self@ as nat, scale@ as nat),
    {
        if scale.0 == 0 {
            return decimal_string(self.0);
        }
        let mult = match scale.multiplier() {
            Ok(m) => m,
            Err(_) => 1,
        };
        assert(mult == pow10(scale@ as nat));
        proof {
            lemma_pow10_positive(scale@ as nat);
        }
        let integer_part = self.0 / mult;
        let fractional_part = self.0 % mult;
        let mut out = decimal_string(integer_part);
        push_char(&mut out, '.');
        let frac = decimal_string(fractional_part);
        let width: usize = scale.0 as usize;
        let frac_len: usize = frac.as_str().unicode_len();
        let mut k: usize = frac_len;
        while k < width
            invariant
                frac_len == spec_decimal(fractional_part as nat).len(),
                frac_len <= k <= width || width < frac_len,
                k <= width ==> out@ == spec_decimal(integer_part as nat) + seq!['.'] + Seq::new((k - frac_len) as nat, |i: int| '0'),
                width < frac_len ==> k == frac_len && out@ == spec_decimal(integer_part as nat) + seq!['.'],
            decreases width - k,
        {
            let ghost before = out@;
            push_char(&mut out, '0');
            proof {
                assert(out@ =~= spec_decimal(integer_part as nat) + seq!['.'] + Seq::new((k + 1 - frac_len) as nat, |i: int| '0'));
            }
            k = k + 1;
        }
        out.append(frac.as_str());
        proof {
            lemma_decimal_len_bound(fractional_part as nat, scale@ as nat);
            let pad = pad_zeros(spec_decimal(fractional_part as nat), scale@ as nat);
            assert(out@ =~= spec_decimal(integer_part as nat) + seq!['.'] + pad);
        }
        out
    }
}

/// `pow10` is positive.
pub proof fn lemma_pow10_positive(n: nat)
    ensures
        pow10(n) >= 1,
    decreases n,
{
    if n > 0 {
        lemma_pow10_positive((n - 1) as nat);
    }
}

/// A number below `10^k` has at most `k` decimal digits (for `k >= 1`).
pub proof fn lemma_decimal_len_bound(x: nat, k: nat)
    requires
        k >= 1,
        x < pow10(k),
    ensures
        spec_decimal(x).len() <= k,
    decreases x,
{
    if x >= 10 {
        assert(k >= 2) by {
            if k == 1 {
                assert(pow10(1) == 10 * pow10(0));
            }
        }
        assert(pow10(k) == 10 * pow10((k - 1) as nat));
        assert(x / 10 < pow10((k - 1) as nat));
        lemma_decimal_len_bound(x / 10, (k - 1) as nat);
    }
}

} // verus!
