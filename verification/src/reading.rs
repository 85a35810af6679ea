use vstd::prelude::*;

verus! {

/// A measurement as a platform reported it, in hundredths of its unit
/// (`Value(8000)` is 80 %, `Value(-250)` is -2.5 degrees).
///
/// A real value that is not a whole number of hundredths is known to lie strictly
/// between two of them: `Between(v)` is more than `v` and less than `v + 1`
/// hundredths. Every threshold of the companion is a whole number of hundredths,
/// so each comparison with one is decided exactly.
///
/// Platforms may hand over values that are not numbers or are unbounded; they are
/// kept apart from real values so that normalisation can drop them.
#[derive(Clone, Copy, Debug, PartialEq, Eq, Structural)]
pub enum Reading {
    Value(i64),
    Between(i64),
    PositiveInfinity,
    NegativeInfinity,
    NotANumber,
}

impl Reading {
    /// The reading is strictly greater than `t` hundredths.
    pub open spec fn spec_exceeds(self, t: int) -> bool {
        match self {
            Reading::Value(v) => v > t,
            Reading::Between(v) => v >= t,
            Reading::PositiveInfinity => true,
            _ => false,
        }
    }

    /// The reading is greater than or equal to `t` hundredths.
    pub open spec fn spec_reaches(self, t: int) -> bool {
        match self {
            Reading::Value(v) => v >= t,
            Reading::Between(v) => v >= t,
            Reading::PositiveInfinity => true,
            _ => false,
        }
    }

    /// The reading is strictly less than `t` hundredths.
    pub open spec fn spec_under(self, t: int) -> bool {
        match self {
            Reading::Value(v) => v < t,
            Reading::Between(v) => v < t,
            Reading::NegativeInfinity => true,
            _ => false,
        }
    }

    /// The reading is less than or equal to `t` hundredths.
    pub open spec fn spec_at_most(self, t: int) -> bool {
        match self {
            Reading::Value(v) => v <= t,
            Reading::Between(v) => v < t,
            Reading::NegativeInfinity => true,
            _ => false,
        }
    }

    /// The reading is a real number.
    pub open spec fn spec_is_finite(self) -> bool {
        self is Value || self is Between
    }

    /// The reading is a real number within `lo..=hi` hundredths.
    pub open spec fn spec_within(self, lo: int, hi: int) -> bool {
        match self {
            Reading::Value(v) => lo <= v <= hi,
            Reading::Between(v) => lo <= v && v < hi,
            _ => false,
        }
    }

    /// A finite reading limited to `lo..=hi` hundredths.
    pub open spec fn spec_clamped(self, lo: i64, hi: i64) -> Reading {
        match self {
            Reading::Value(v) => Reading::Value(
                if v < lo {
                    lo
                } else if v > hi {
                    hi
                } else {
                    v
                },
            ),
            Reading::Between(v) => if v < lo {
                Reading::Value(lo)
            } else if v >= hi {
                Reading::Value(hi)
            } else {
                Reading::Between(v)
            },
            other => other,
        }
    }

    pub fn exceeds(self, t: i64) -> (r: bool)
        ensures
            r == self.spec_exceeds(t as int),
    {
        match self {
            Reading::Value(v) => v > t,
            Reading::Between(v) => v >= t,
            Reading::PositiveInfinity => true,
            _ => false,
        }
    }

    pub fn reaches(self, t: i64) -> (r: bool)
        ensures
            r == self.spec_reaches(t as int),
    {
        match self {
            Reading::Value(v) => v >= t,
            Reading::Between(v) => v >= t,
            Reading::PositiveInfinity => true,
            _ => false,
        }
    }

    pub fn under(self, t: i64) -> (r: bool)
        ensures
            r == self.spec_under(t as int),
    {
        match self {
            Reading::Value(v) => v < t,
            Reading::Between(v) => v < t,
            Reading::NegativeInfinity => true,
            _ => false,
        }
    }

    pub fn at_most(self, t: i64) -> (r: bool)
        ensures
            r == self.spec_at_most(t as int),
    {
        match self {
            Reading::Value(v) => v <= t,
            Reading::Between(v) => v < t,
            Reading::NegativeInfinity => true,
            _ => false,
        }
    }

    pub fn is_finite(self) -> (r: bool)
        ensures
            r == self.spec_is_finite(),
    {
        match self {
            Reading::Value(_) => true,
            Reading::Between(_) => true,
            _ => false,
        }
    }

    /// Limits a finite reading to `lo..=hi` hundredths; other readings are kept.
    pub fn clamped(self, lo: i64, hi: i64) -> (r: Reading)
        requires
            lo <= hi,
        ensures
            r == self.spec_clamped(lo, hi),
    {
        match self {
            Reading::Value(v) => Reading::Value(
                if v < lo {
                    lo
                } else if v > hi {
                    hi
                } else {
                    v
                },
            ),
            Reading::Between(v) => if v < lo {
                Reading::Value(lo)
            } else if v >= hi {
                Reading::Value(hi)
            } else {
                Reading::Between(v)
            },
            other => other,
        }
    }
}

} // verus!
