//! Real numbers as a gnuplot script writes them.
use vstd::prelude::*;

verus! {

/// A real number, held as what the script needs of it: its text in scientific
/// notation with 12 fractional digits (`{:.12e}`), its shortest text (`{}`), and a key
/// that orders it among other reals.
///
/// The key is `None` for a NaN, which compares false with everything. Otherwise it is
/// an integer that grows with the number, equal for `0.0` and `-0.0`, `0` for zero,
/// negative for negative numbers and positive for positive ones.
#[derive(Clone, Debug)]
pub struct Real {
    pub key: Option<i64>,
    pub sci: String,
    pub plain: String,
}

impl Real {
    /// `self > 0`
    pub open spec fn is_positive(&self) -> bool {
        self.key matches Some(k) && k > 0
    }

    /// `self <= 0`; false for NaN.
    pub open spec fn is_at_most_zero(&self) -> bool {
        self.key matches Some(k) && k <= 0
    }

    /// `self >= 0`
    pub open spec fn is_non_negative(&self) -> bool {
        self.key matches Some(k) && k >= 0
    }

    /// `self > other`
    pub open spec fn greater(&self, other: &Real) -> bool {
        &&& self.key matches Some(a)
        &&& other.key matches Some(b)
        &&& a > b
    }

    /// `self >= other`
    pub open spec fn at_least(&self, other: &Real) -> bool {
        &&& self.key matches Some(a)
        &&& other.key matches Some(b)
        &&& a >= b
    }

    /// Whether the number is zero or less; false for NaN.
    pub fn at_most_zero(&self) -> (r: bool)
        ensures
            r == self.is_at_most_zero(),
    {
        match self.key {
            Some(k) => k <= 0,
            None => false,
        }
    }

    /// Whether the number is greater than zero.
    pub fn positive(&self) -> (r: bool)
        ensures
            r == self.is_positive(),
    {
        match self.key {
            Some(k) => k > 0,
            None => false,
        }
    }

    /// Whether the number is zero or greater.
    pub fn non_negative(&self) -> (r: bool)
        ensures
            r == self.is_non_negative(),
    {
        match self.key {
            Some(k) => k >= 0,
            None => false,
        }
    }

    /// Whether `self > other`.
    pub fn gt(&self, other: &Real) -> (r: bool)
        ensures
            r == self.greater(other),
    {
        match (self.key, other.key) {
            (Some(a), Some(b)) => a > b,
            _ => false,
        }
    }

    /// Whether `self >= other`.
    pub fn ge(&self, other: &Real) -> (r: bool)
        ensures
            r == self.at_least(other),
    {
        match (self.key, other.key) {
            (Some(a), Some(b)) => a >= b,
            _ => false,
        }
    }

    /// The key and the two texts agree: a NaN, and only a NaN, has no key and is written
    /// `NaN` both ways; a number below zero is written with a leading `-` both ways, and
    /// one above zero without.
    pub open spec fn wf(&self) -> bool {
        &&& (self.key is None <==> (self.sci@ == nan_text() && self.plain@ == nan_text()))
        &&& (self.key matches Some(k) && k < 0 ==> starts_with_minus(self.sci@) && starts_with_minus(self.plain@))
        &&& (self.key matches Some(k) && k > 0 ==> !starts_with_minus(self.sci@) && !starts_with_minus(self.plain@)
            && self.sci@.len() > 0 && self.plain@.len() > 0)
    }

    /// Whether the key and the two texts agree.
    pub fn is_well_formed(&self) -> (r: bool)
        ensures
            r == self.wf(),
    {
        let sci_nan = is_nan_text(self.sci.as_str());
        let plain_nan = is_nan_text(self.plain.as_str());
        let sci_minus = has_minus(self.sci.as_str());
        let plain_minus = has_minus(self.plain.as_str());
        let sci_len = self.sci.as_str().unicode_len();
        let plain_len = self.plain.as_str().unicode_len();
        match self.key {
            None => sci_nan && plain_nan,
            Some(k) => {
                !(sci_nan && plain_nan) && (k >= 0 || (sci_minus && plain_minus))
                    && (k <= 0 || (!sci_minus && !plain_minus && sci_len > 0 && plain_len > 0))
            },
        }
    }
}

/// How Rust writes a NaN.
pub open spec fn nan_text() -> Seq<char> {
    seq!['N', 'a', 'N']
}

/// Whether a text starts with `-`.
pub open spec fn starts_with_minus(t: Seq<char>) -> bool {
    t.len() > 0 && t[0] == '-'
}

fn is_nan_text(t: &str) -> (r: bool)
    ensures
        r == (t@ == nan_text()),
{
    if t.unicode_len() != 3 {
        return false;
    }
    let r = t.get_char(0) == 'N' && t.get_char(1) == 'a' && t.get_char(2) == 'N';
    proof {
        if r {
            assert(t@ =~= nan_text());
        }
    }
    r
}

fn has_minus(t: &str) -> (r: bool)
    ensures
        r == starts_with_minus(t@),
{
    t.unicode_len() > 0 && t.get_char(0) == '-'
}

} // verus!
