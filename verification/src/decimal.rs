//! Exact decimal numbers as plain values: a mantissa and a scale, as
//! `rust_decimal::Decimal` holds them. Their text is read and written by
//! `rust_decimal`.
use vstd::prelude::*;

use rust_decimal::Decimal;

verus! {

/// The largest magnitude of a mantissa (96 bits).
pub const MAX_MANTISSA: i128 = 0xFFFF_FFFF_FFFF_FFFF_FFFF_FFFF;

/// The largest scale.
pub const MAX_SCALE: u32 = 28;

/// The number `mantissa / 10^scale`. As in `Decimal`, whose parser clears the
/// sign of a zero, a zero has no sign.
#[derive(Clone, Copy, Debug, PartialEq, Eq, Structural, Hash)]
pub struct DecimalNumber {
    pub mantissa: i128,
    pub scale: u32,
}

/// The number that `rust_decimal` reads from a text with `str::parse::<Decimal>`.
pub uninterp spec fn decimal_parse(s: Seq<char>) -> Option<DecimalNumber>;

/// The decimal digits of `n`, without leading zeros; none for zero.
pub open spec fn digits_of(n: nat) -> Seq<char>
    decreases n,
{
    if n == 0 {
        Seq::empty()
    } else {
        digits_of(n / 10).push((48 + n % 10) as char)
    }
}

/// The text that `rust_decimal` writes for a number with `Decimal`'s
/// `Display`: the digits of the mantissa, padded with zeros to at least the
/// scale, with a point before the last `scale` of them (and a `0` before a
/// point that would come first), `0` for a zero of scale 0, and a minus sign
/// for a negative mantissa.
pub open spec fn decimal_format(d: DecimalNumber) -> Seq<char> {
    let m: nat = (if d.mantissa < 0 { -d.mantissa } else { d.mantissa as int }) as nat;
    let ds = digits_of(m);
    let padded = if ds.len() < d.scale { Seq::new((d.scale - ds.len()) as nat, |i: int| '0') + ds } else { ds };
    let whole = padded.len() - d.scale;
    let body = if d.scale == 0 {
        if padded.len() == 0 { seq!['0'] } else { padded }
    } else {
        (if whole == 0 { seq!['0'] } else { padded.take(whole) }) + seq!['.'] + padded.skip(whole)
    };
    if d.mantissa < 0 { seq!['-'] + body } else { body }
}

impl DecimalNumber {
    /// The numbers that `Decimal` represents.
    pub open spec fn valid(self) -> bool {
        -MAX_MANTISSA <= self.mantissa <= MAX_MANTISSA && self.scale <= MAX_SCALE
    }

    /// Zero with no fractional digits (`Decimal::new(0, 0)`).
    pub fn zero() -> (res: DecimalNumber)
        ensures
            res == (DecimalNumber { mantissa: 0, scale: 0 }),
            res.valid(),
    {
        DecimalNumber { mantissa: 0, scale: 0 }
    }
}

/// Reads a number with `str::parse::<Decimal>`.
#[verifier::external_body]
pub(crate) fn parse_decimal(s: &str) -> (res: Option<DecimalNumber>)
    ensures
        res == decimal_parse(s@),
        res matches Some(d) ==> d.valid(),
{
    match s.parse::<Decimal>() {
        Ok(d) => Some(DecimalNumber { mantissa: d.mantissa(), scale: d.scale() }),
        Err(_) => None,
    }
}

/// Writes a number with `Decimal`'s `Display`: the digits of the mantissa
/// with as many of them after the point as the scale says. `str::parse::<Decimal>`
/// reads that text back to the same mantissa and scale.
#[verifier::external_body]
pub(crate) fn format_decimal(d: &DecimalNumber) -> (res: String)
    requires
        d.valid(),
    ensures
        res@ == decimal_format(*d),
        decimal_parse(res@) == Some(*d),
{
    Decimal::try_from_i128_with_scale(d.mantissa, d.scale).unwrap().to_string()
}

} // verus!
