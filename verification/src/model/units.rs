//! Units of the simulation: money in cents, distances in metres, times in
//! seconds, and the rates built from them.

use vstd::prelude::*;
use vstd::string::StringExecFns;

verus! {

/// Why a derived value could not be calculated.
#[derive(Clone, Copy, Debug, PartialEq, Eq)]
pub enum CalculationError {
    /// The result leaves the range of its unit.
    Overflow { operation: &'static str },
}

impl CalculationError {
    /// The message shown to the player.
    pub open spec fn text(self) -> Seq<char> {
        match self {
            CalculationError::Overflow { operation } => operation@ + " overflows its unit"@,
        }
    }

    pub fn message(&self) -> (result: String)
        ensures
            result@ == self.text(),
    {
        match self {
            CalculationError::Overflow { operation } => (*operation).to_owned().concat(
                " overflows its unit",
            ),
        }
    }
}

/// A value outside the domain of its unit.
#[derive(Clone, Copy, Debug, PartialEq, Eq, Structural)]
pub struct OutOfDomain;

pub open spec fn fits_i64(value: int) -> bool {
    i64::MIN <= value <= i64::MAX
}

/// An amount of money in whole cents.
#[derive(Clone, Copy, Debug, PartialEq, Eq, Hash, PartialOrd, Ord, Structural)]
pub struct Money {
    pub cents: i64,
}

impl Money {
    pub fn zero() -> (result: Self)
        ensures
            result.cents == 0,
    {
        Money { cents: 0 }
    }

    pub fn from_cents(cents: i64) -> (result: Self)
        ensures
            result.cents == cents,
    {
        Money { cents }
    }

    pub fn cents(self) -> (result: i64)
        ensures
            result == self.cents,
    {
        self.cents
    }

    /// The sum, where it fits the unit.
    pub fn checked_add(self, other: Money) -> (result: Result<Money, CalculationError>)
        ensures
            result == money_sum(self.cents as int, other.cents as int),
    {
        match self.cents.checked_add(other.cents) {
            Some(cents) => Ok(Money { cents }),
            None => Err(CalculationError::Overflow { operation: "money addition" }),
        }
    }

    /// The difference, where it fits the unit.
    pub fn checked_sub(self, other: Money) -> (result: Result<Money, CalculationError>)
        ensures
            result == money_difference(self.cents as int, other.cents as int),
    {
        match self.cents.checked_sub(other.cents) {
            Some(cents) => Ok(Money { cents }),
            None => Err(CalculationError::Overflow { operation: "money subtraction" }),
        }
    }

    /// The amount taken `count` times, where it fits the unit.
    pub fn checked_mul(self, count: u64) -> (result: Result<Money, CalculationError>)
        ensures
            result == money_product(self.cents as int, count as int),
    {
        assert(i64::MIN * u64::MAX <= self.cents as int * count as int <= i64::MAX * u64::MAX)
            by (nonlinear_arith)
            requires
                i64::MIN <= self.cents <= i64::MAX,
                0 <= count <= u64::MAX,
        ;
        let product: i128 = (self.cents as i128) * (count as i128);
        if product < i64::MIN as i128 || product > i64::MAX as i128 {
            Err(CalculationError::Overflow { operation: "money multiplication" })
        } else {
            Ok(Money { cents: product as i64 })
        }
    }
}

/// An exact amount as money, or the overflow of the named operation.
pub open spec fn money_or_overflow(cents: int, operation: &'static str) -> Result<
    Money,
    CalculationError,
> {
    if fits_i64(cents) {
        Ok(Money { cents: cents as i64 })
    } else {
        Err(CalculationError::Overflow { operation })
    }
}

pub open spec fn money_sum(first: int, second: int) -> Result<Money, CalculationError> {
    money_or_overflow(first + second, "money addition")
}

pub open spec fn money_difference(first: int, second: int) -> Result<Money, CalculationError> {
    money_or_overflow(first - second, "money subtraction")
}

pub open spec fn money_product(cents: int, count: int) -> Result<Money, CalculationError> {
    money_or_overflow(cents * count, "money multiplication")
}

/// A point in time, in seconds since the Unix epoch.
#[derive(Clone, Copy, Debug, PartialEq, Eq, Hash, PartialOrd, Ord, Structural)]
pub struct UtcSeconds {
    pub seconds: i64,
}

impl UtcSeconds {
    pub fn from_unix_seconds(seconds: i64) -> (result: Self)
        ensures
            result.seconds == seconds,
    {
        UtcSeconds { seconds }
    }

    pub fn unix_seconds(self) -> (result: i64)
        ensures
            result == self.seconds,
    {
        self.seconds
    }

    /// The time `duration` later, where it fits the unit.
    pub fn checked_add(self, duration: DurationSeconds) -> (result: Result<
        UtcSeconds,
        CalculationError,
    >)
        ensures
            result == (if self.seconds + duration.seconds <= i64::MAX {
                Ok::<UtcSeconds, CalculationError>(
                    UtcSeconds { seconds: (self.seconds + duration.seconds) as i64 },
                )
            } else {
                Err(CalculationError::Overflow { operation: "time addition" })
            }),
    {
        let sum: i128 = self.seconds as i128 + duration.seconds as i128;
        if sum <= i64::MAX as i128 {
            Ok(UtcSeconds { seconds: sum as i64 })
        } else {
            Err(CalculationError::Overflow { operation: "time addition" })
        }
    }
}

/// A length of time in whole seconds.
#[derive(Clone, Copy, Debug, PartialEq, Eq, Hash, PartialOrd, Ord, Structural)]
pub struct DurationSeconds {
    pub seconds: u64,
}

impl DurationSeconds {
    pub fn from_seconds(seconds: u64) -> (result: Self)
        ensures
            result.seconds == seconds,
    {
        DurationSeconds { seconds }
    }

    pub fn seconds(self) -> (result: u64)
        ensures
            result == self.seconds,
    {
        self.seconds
    }
}

/// A positive distance in metres.
#[derive(Clone, Copy, Debug, PartialEq, Eq, Hash, PartialOrd, Ord, Structural)]
pub struct DistanceMetres {
    pub metres: u64,
}

impl DistanceMetres {
    pub open spec fn wf(self) -> bool {
        0 < self.metres <= i64::MAX
    }

    pub fn new(metres: i64) -> (result: Result<Self, OutOfDomain>)
        ensures
            result == (if metres > 0 {
                Ok::<Self, OutOfDomain>(DistanceMetres { metres: metres as u64 })
            } else {
                Err(OutOfDomain)
            }),
    {
        if metres > 0 {
            Ok(DistanceMetres { metres: metres as u64 })
        } else {
            Err(OutOfDomain)
        }
    }

    pub fn metres(self) -> (result: u64)
        ensures
            result == self.metres,
    {
        self.metres
    }
}

/// A positive speed limit in kilometres per hour.
#[derive(Clone, Copy, Debug, PartialEq, Eq, Hash, PartialOrd, Ord, Structural)]
pub struct SpeedKilometresPerHour {
    pub kilometres_per_hour: u32,
}

impl SpeedKilometresPerHour {
    pub open spec fn wf(self) -> bool {
        0 < self.kilometres_per_hour
    }

    pub fn new(speed: i64) -> (result: Result<Self, OutOfDomain>)
        ensures
            result == (if 0 < speed <= u32::MAX {
                Ok::<Self, OutOfDomain>(
                    SpeedKilometresPerHour { kilometres_per_hour: speed as u32 },
                )
            } else {
                Err(OutOfDomain)
            }),
    {
        if speed > 0 && speed <= u32::MAX as i64 {
            Ok(SpeedKilometresPerHour { kilometres_per_hour: speed as u32 })
        } else {
            Err(OutOfDomain)
        }
    }

    pub fn kilometres_per_hour(self) -> (result: u32)
        ensures
            result == self.kilometres_per_hour,
    {
        self.kilometres_per_hour
    }
}

/// A positive number of parallel tracks.
#[derive(Clone, Copy, Debug, PartialEq, Eq, Hash, PartialOrd, Ord, Structural)]
pub struct TrackCount {
    pub tracks: u32,
}

impl TrackCount {
    pub fn single() -> (result: Self)
        ensures
            result.tracks == 1,
    {
        TrackCount { tracks: 1 }
    }

    pub fn double() -> (result: Self)
        ensures
            result.tracks == 2,
    {
        TrackCount { tracks: 2 }
    }

    pub open spec fn wf(self) -> bool {
        0 < self.tracks
    }

    pub fn new(tracks: i64) -> (result: Result<Self, OutOfDomain>)
        ensures
            result == (if 0 < tracks <= u32::MAX {
                Ok::<Self, OutOfDomain>(TrackCount { tracks: tracks as u32 })
            } else {
                Err(OutOfDomain)
            }),
    {
        if tracks > 0 && tracks <= u32::MAX as i64 {
            Ok(TrackCount { tracks: tracks as u32 })
        } else {
            Err(OutOfDomain)
        }
    }

    pub fn tracks(self) -> (result: u32)
        ensures
            result == self.tracks,
    {
        self.tracks
    }
}

/// A positive price per kilometre, in cents.
#[derive(Clone, Copy, Debug, PartialEq, Eq, Hash, PartialOrd, Ord, Structural)]
pub struct MoneyPerKilometre {
    pub cents_per_kilometre: u64,
}

/// The charge for a distance: the exact product, rounded up to a whole cent.
pub open spec fn charge(rate: int, metres: int) -> Result<Money, CalculationError> {
    money_or_overflow((rate * metres + 999) / 1000, "distance charge")
}

impl MoneyPerKilometre {
    pub open spec fn wf(self) -> bool {
        0 < self.cents_per_kilometre <= i64::MAX
    }

    pub fn new(cents: i64) -> (result: Result<Self, OutOfDomain>)
        ensures
            result == (if cents > 0 {
                Ok::<Self, OutOfDomain>(MoneyPerKilometre { cents_per_kilometre: cents as u64 })
            } else {
                Err(OutOfDomain)
            }),
    {
        if cents > 0 {
            Ok(MoneyPerKilometre { cents_per_kilometre: cents as u64 })
        } else {
            Err(OutOfDomain)
        }
    }

    pub fn cents_per_kilometre(self) -> (result: u64)
        ensures
            result == self.cents_per_kilometre,
    {
        self.cents_per_kilometre
    }

    /// What a distance costs at this rate.
    pub fn checked_charge(self, distance: DistanceMetres) -> (result: Result<
        Money,
        CalculationError,
    >)
        ensures
            result == charge(self.cents_per_kilometre as int, distance.metres as int),
    {
        let rate: u128 = self.cents_per_kilometre as u128;
        let metres: u128 = distance.metres as u128;
        assert(0 <= rate * metres <= 0xffff_ffff_ffff_ffff * 0xffff_ffff_ffff_ffff)
            by (nonlinear_arith)
            requires
                0 <= rate <= 0xffff_ffff_ffff_ffff,
                0 <= metres <= 0xffff_ffff_ffff_ffff,
        ;
        let cents: u128 = (rate * metres + 999) / 1000;
        if cents > i64::MAX as u128 {
            Err(CalculationError::Overflow { operation: "distance charge" })
        } else {
            Ok(Money { cents: cents as i64 })
        }
    }
}

/// How far a market has matured, in basis points of its full demand.
#[derive(Clone, Copy, Debug, PartialEq, Eq, Hash, PartialOrd, Ord, Structural)]
pub struct MarketMaturity {
    pub basis_points: u16,
}

impl MarketMaturity {
    pub open spec fn wf(self) -> bool {
        self.basis_points <= 10_000
    }

    pub fn from_basis_points(basis_points: i64) -> (result: Result<Self, OutOfDomain>)
        ensures
            result == (if 0 <= basis_points <= 10_000 {
                Ok::<Self, OutOfDomain>(MarketMaturity { basis_points: basis_points as u16 })
            } else {
                Err(OutOfDomain)
            }),
    {
        if basis_points >= 0 && basis_points <= 10_000 {
            Ok(MarketMaturity { basis_points: basis_points as u16 })
        } else {
            Err(OutOfDomain)
        }
    }

    pub fn basis_points(self) -> (result: u16)
        ensures
            result == self.basis_points,
    {
        self.basis_points
    }
}

/// Passengers that arrive at a station per hour.
#[derive(Clone, Copy, Debug, PartialEq, Eq, Hash, PartialOrd, Ord, Structural)]
pub struct PassengerArrivalRate {
    pub passengers_per_hour: u32,
}

impl PassengerArrivalRate {
    pub fn new(passengers: i64) -> (result: Result<Self, OutOfDomain>)
        ensures
            result == (if 0 <= passengers <= u32::MAX {
                Ok::<Self, OutOfDomain>(
                    PassengerArrivalRate { passengers_per_hour: passengers as u32 },
                )
            } else {
                Err(OutOfDomain)
            }),
    {
        if passengers >= 0 && passengers <= u32::MAX as i64 {
            Ok(PassengerArrivalRate { passengers_per_hour: passengers as u32 })
        } else {
            Err(OutOfDomain)
        }
    }

    pub fn passengers_per_hour(self) -> (result: u32)
        ensures
            result == self.passengers_per_hour,
    {
        self.passengers_per_hour
    }
}

} // verus!
