//! A validated fuel quantity.
//!
//! A [`FuelLevel`] is an immutable, totally ordered, non-negative amount of
//! fuel. Internally the amount is held as a whole number of millilitres, so
//! that every stored level is by construction finite and non-negative, and
//! litres and millilitres are two views of the same magnitude related by a
//! fixed factor of 1000.
//!
//! Two construction paths with different philosophies exist side by side:
//! [`FuelLevel::with_litres`] is for values the caller already knows to be
//! valid and makes that a precondition, while [`FuelLevel::with_millilitres`]
//! is for untrusted sensor readings and reports a bad reading as an
//! [`Error`].

use vstd::prelude::*;
use vstd::arithmetic::div_mod::lemma_div_by_multiple;
use vstd::std_specs::cmp::PartialOrdSpec;
use core::cmp::Ordering;

verus! {

/// How many millilitres make one litre.
pub const MILLILITRES_PER_LITRE: u64 = 1000;

/// The system-wide ceiling reference of ten litres, in millilitres.
///
/// This is a named reference point for callers, not an upper bound that
/// construction enforces.
pub const FUEL_LEVEL_MAX_MILLILITRES: u64 = 10_000;

/// All the ways this module can fail.
#[derive(Clone, Copy, Debug, PartialEq, Eq, Structural)]
pub enum Error {
    /// Tried to create a fuel level from a negative reading.
    NegativeFuelLevel,
    /// Tried to create a fuel level from a reading that is not a finite
    /// number.
    InvalidFuelLevel,
}

/// An untrusted reading in millilitres, as a sensor channel delivers it.
///
/// A numeric channel can hand back a plain signed count of millilitres, but
/// also either infinity or a value that is not a number at all. Classifying
/// such a reading is exactly what [`FuelLevel::with_millilitres`] is for.
#[derive(Clone, Copy, Debug, PartialEq, Eq, Structural)]
pub enum RawReading {
    /// A finite count of millilitres; may be negative.
    Millilitres(i64),
    /// The reading overflowed upward.
    PositiveInfinity,
    /// The reading overflowed downward; compares below every finite value.
    NegativeInfinity,
    /// The reading is not a number.
    NotANumber,
}

/// Represents a fuel level in the tank.
///
/// The magnitude is a whole number of millilitres; a level is therefore
/// never negative and never a non-finite quantity. Two levels are equal
/// exactly when their magnitudes are equal, and they order by magnitude.
#[derive(Clone, Copy, Debug, PartialEq, Eq, Structural, Ord)]
pub struct FuelLevel {
    millilitres: u64,
}

impl View for FuelLevel {
    type V = int;

    /// The magnitude of the level, in millilitres.
    closed spec fn view(&self) -> int {
        self.millilitres as int
    }
}

impl PartialOrd for FuelLevel {
    /// Levels compare by magnitude alone; equal magnitudes are equal.
    fn partial_cmp(&self, other: &FuelLevel) -> Option<Ordering> {
        if self.millilitres < other.millilitres {
            Some(Ordering::Less)
        } else if self.millilitres > other.millilitres {
            Some(Ordering::Greater)
        } else {
            Some(Ordering::Equal)
        }
    }
}

impl vstd::std_specs::cmp::PartialOrdSpecImpl for FuelLevel {
    open spec fn obeys_partial_cmp_spec() -> bool {
        true
    }

    open spec fn partial_cmp_spec(&self, other: &FuelLevel) -> Option<Ordering> {
        if self@ < other@ {
            Some(Ordering::Less)
        } else if self@ > other@ {
            Some(Ordering::Greater)
        } else {
            Some(Ordering::Equal)
        }
    }
}

/// Relies on `String::push`: appends the given character to the end of
/// the string.
pub assume_specification[ String::push ](s: &mut String, c: char)
    ensures
        final(s)@ == old(s)@.push(c),
;

/// The character for a single decimal digit.
pub open spec fn digit_char(d: nat) -> char
    recommends
        d < 10,
{
    ((d + 48) as u8) as char
}

/// The decimal rendering of a number: its digits in order, with no sign
/// and no leading zero except for the number zero itself.
pub open spec fn decimal(n: nat) -> Seq<char>
    decreases n,
{
    if n < 10 {
        seq![digit_char(n)]
    } else {
        decimal(n / 10) + seq![digit_char(n % 10)]
    }
}

/// The rendering of a magnitude in millilitres: the whole litres, a
/// point, the remaining millilitres as exactly three digits, and the unit.
pub open spec fn render_spec(ml: int) -> Seq<char>
    recommends
        0 <= ml,
{
    decimal((ml / 1000) as nat) + seq![
        '.',
        digit_char(((ml % 1000) / 100) as nat),
        digit_char((((ml % 1000) / 10) % 10) as nat),
        digit_char(((ml % 1000) % 10) as nat),
        ' ',
        'l',
        'i',
        't',
        'r',
        'e',
        's',
    ]
}

/// Append one decimal digit to the output.
fn push_digit(out: &mut String, d: u64)
    requires
        d < 10,
    ensures
        final(out)@ == old(out)@.push(digit_char(d as nat)),
{
    let c: char = (48 + (d as u8)) as char;
    out.push(c);
}

/// Append the decimal rendering of a number to the output.
fn push_decimal(out: &mut String, n: u64)
    ensures
        final(out)@ == old(out)@ + decimal(n as nat),
    decreases n,
{
    if n >= 10 {
        push_decimal(out, n / 10);
        push_digit(out, n % 10);
        proof {
            assert(out@ =~= old(out)@ + decimal(n as nat));
        }
    } else {
        push_digit(out, n);
        proof {
            assert(out@ =~= old(out)@ + decimal(n as nat));
        }
    }
}

/// The level whose magnitude is the given count of millilitres.
pub closed spec fn level_of_ml(ml: u64) -> FuelLevel {
    FuelLevel { millilitres: ml }
}

/// The magnitude of [`level_of_ml`] is the millilitre count it was given.
pub broadcast proof fn lemma_level_of_ml_view(ml: u64)
    ensures
        #[trigger] level_of_ml(ml)@ == ml,
{
}

impl FuelLevel {
    /// The level holding exactly the given count of millilitres.
    pub(crate) fn of_millilitres(ml: u64) -> (r: FuelLevel)
        ensures
            r == level_of_ml(ml),
            r@ == ml,
    {
        FuelLevel { millilitres: ml }
    }

    /// Create a new zero fuel level.
    pub fn zero() -> (r: FuelLevel)
        ensures
            r@ == 0,
    {
        FuelLevel { millilitres: 0 }
    }

    /// The system-wide ceiling reference of ten litres, as a level.
    ///
    /// A named reference point for callers, not an upper bound that
    /// construction enforces.
    pub fn fuel_level_max() -> (r: FuelLevel)
        ensures
            r@ == FUEL_LEVEL_MAX_MILLILITRES,
    {
        FuelLevel { millilitres: FUEL_LEVEL_MAX_MILLILITRES }
    }

    /// Create a new fuel level from a value in whole litres.
    ///
    /// This is the trusted construction path: it never fails at run time,
    /// and instead demands up front that the value is a representable
    /// non-negative quantity. A negative or non-finite quantity cannot
    /// reach the body at all; untrusted input belongs to
    /// [`FuelLevel::with_millilitres`] instead.
    pub fn with_litres(litres: i64) -> (r: FuelLevel)
        requires
            0 <= litres,
            litres * MILLILITRES_PER_LITRE <= u64::MAX,
        ensures
            r@ == litres * MILLILITRES_PER_LITRE,
    {
        FuelLevel { millilitres: (litres as u64) * MILLILITRES_PER_LITRE }
    }

    /// Create a new fuel level from an untrusted reading in millilitres.
    ///
    /// A negative reading (negative infinity included, since it lies below
    /// every finite value) is rejected as [`Error::NegativeFuelLevel`];
    /// negativity is checked first. Any other non-finite reading is
    /// rejected as [`Error::InvalidFuelLevel`]. A finite non-negative
    /// reading always succeeds, with the count taken over exactly.
    pub fn with_millilitres(raw: RawReading) -> (r: Result<FuelLevel, Error>)
        ensures
            (match raw {
                RawReading::Millilitres(ml) => {
                    if ml < 0 {
                        r == Err::<FuelLevel, Error>(Error::NegativeFuelLevel)
                    } else {
                        r matches Ok(l) && l@ == ml
                    }
                },
                RawReading::NegativeInfinity => r == Err::<FuelLevel, Error>(
                    Error::NegativeFuelLevel,
                ),
                RawReading::PositiveInfinity => r == Err::<FuelLevel, Error>(
                    Error::InvalidFuelLevel,
                ),
                RawReading::NotANumber => r == Err::<FuelLevel, Error>(Error::InvalidFuelLevel),
            }),
    {
        match raw {
            RawReading::Millilitres(ml) => {
                if ml < 0 {
                    Err(Error::NegativeFuelLevel)
                } else {
                    Ok(FuelLevel { millilitres: ml as u64 })
                }
            },
            RawReading::NegativeInfinity => Err(Error::NegativeFuelLevel),
            RawReading::PositiveInfinity => Err(Error::InvalidFuelLevel),
            RawReading::NotANumber => Err(Error::InvalidFuelLevel),
        }
    }

    /// The magnitude in whole litres, truncating any fraction of a litre.
    ///
    /// For a level built from whole litres this is exact.
    pub fn as_litres(self) -> (r: u64)
        ensures
            r == self@ / MILLILITRES_PER_LITRE as int,
    {
        self.millilitres / MILLILITRES_PER_LITRE
    }

    /// The magnitude in millilitres, exactly.
    pub fn as_millilitres(self) -> (r: u64)
        ensures
            r == self@,
    {
        self.millilitres
    }

    /// The human-readable rendering of the level: the magnitude in litres
    /// with three fractional digits and the unit, such as `2.000 litres`.
    pub fn render(&self) -> (r: String)
        ensures
            r@ == render_spec(self@),
    {
        let ml: u64 = self.millilitres;
        let mut out = String::new();
        push_decimal(&mut out, ml / MILLILITRES_PER_LITRE);
        out.push('.');
        push_digit(&mut out, (ml % MILLILITRES_PER_LITRE) / 100);
        push_digit(&mut out, ((ml % MILLILITRES_PER_LITRE) / 10) % 10);
        push_digit(&mut out, (ml % MILLILITRES_PER_LITRE) % 10);
        out.push(' ');
        out.push('l');
        out.push('i');
        out.push('t');
        out.push('r');
        out.push('e');
        out.push('s');
        proof {
            assert(out@ =~= render_spec(self@));
        }
        out
    }
}

/// Two levels are equal exactly when their magnitudes in millilitres are
/// equal: the view determines the value and the value determines the view.
pub proof fn lemma_level_eq_magnitude(a: FuelLevel, b: FuelLevel)
    ensures
        a == b <==> a@ == b@,
{
}

/// Building a level from whole litres and reading it back is lossless: the
/// litre accessor returns the litres that went in, and the millilitre
/// accessor returns exactly a thousand times as much.
pub proof fn lemma_litres_round_trip(litres: i64, l: FuelLevel)
    requires
        0 <= litres,
        litres * MILLILITRES_PER_LITRE <= u64::MAX,
        l@ == litres * MILLILITRES_PER_LITRE,
    ensures
        l@ / (MILLILITRES_PER_LITRE as int) == litres,
        l@ == litres * MILLILITRES_PER_LITRE,
{
    lemma_div_by_multiple(litres as int, MILLILITRES_PER_LITRE as int);
}

/// A reading of a thousand times some whole litre count builds the same
/// level through the untrusted millilitre path as that litre count builds
/// through the trusted litre path.
pub proof fn lemma_unit_round_trip(litres: i64, from_ml: Result<FuelLevel, Error>, from_l: FuelLevel)
    requires
        0 <= litres,
        litres * MILLILITRES_PER_LITRE <= u64::MAX,
        (from_ml matches Ok(l) && l@ == litres * MILLILITRES_PER_LITRE),
        from_l@ == litres * MILLILITRES_PER_LITRE,
    ensures
        from_ml == Ok::<FuelLevel, Error>(from_l),
{
}

/// Ordering is a strict total order consistent with equality, both driven
/// by the magnitude: for any two levels exactly one of below, equal and
/// above holds, and the comparison that `<` and `partial_cmp` follow agrees
/// with comparing the magnitudes.
pub proof fn lemma_order_consistency(a: FuelLevel, b: FuelLevel)
    ensures
        (a@ < b@) || (a@ == b@) || (a@ > b@),
        (a@ < b@) ==> !(a@ == b@) && !(a@ > b@),
        (a@ == b@) ==> !(a@ < b@) && !(a@ > b@),
        (a@ > b@) ==> !(a@ < b@) && !(a@ == b@),
        (a == b) <==> a@ == b@,
        FuelLevel::obeys_partial_cmp_spec(),
        a.partial_cmp_spec(&b) == Some(Ordering::Less) <==> a@ < b@,
        a.partial_cmp_spec(&b) == Some(Ordering::Equal) <==> a@ == b@,
        a.partial_cmp_spec(&b) == Some(Ordering::Greater) <==> a@ > b@,
{
}

} // verus!
