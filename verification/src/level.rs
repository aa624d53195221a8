use vstd::prelude::*;

verus! {

/// Severity of an assertion check, from `Off` (nothing enabled) to `Trace`
/// (everything enabled).
///
/// The six levels are totally ordered: Off < Error < Warn < Info < Debug <
/// Trace. A check fires only when its own level lies at or below every
/// applicable ceiling, so `Off` as a ceiling disables every check and
/// `Trace` enables them all.
#[derive(Clone, Copy, Debug, PartialEq, Eq, PartialOrd, Ord, Hash, Structural)]
pub enum AssertLevel {
    Off,
    Error,
    Warn,
    Info,
    Debug,
    Trace,
}

impl AssertLevel {
    /// Position of the level in the total order, from 0 (`Off`) to 5
    /// (`Trace`).
    pub open spec fn rank(self) -> int {
        match self {
            AssertLevel::Off => 0,
            AssertLevel::Error => 1,
            AssertLevel::Warn => 2,
            AssertLevel::Info => 3,
            AssertLevel::Debug => 4,
            AssertLevel::Trace => 5,
        }
    }

    /// `self` lies at or below `other` in the severity order.
    pub open spec fn le_spec(self, other: AssertLevel) -> bool {
        self.rank() <= other.rank()
    }

    /// The rank as a machine integer, for storing a level compactly.
    pub fn as_index(self) -> (r: u8)
        ensures
            r == self.rank(),
    {
        match self {
            AssertLevel::Off => 0,
            AssertLevel::Error => 1,
            AssertLevel::Warn => 2,
            AssertLevel::Info => 3,
            AssertLevel::Debug => 4,
            AssertLevel::Trace => 5,
        }
    }

    /// The level whose rank is `index`, if there is one.
    pub fn from_index(index: u8) -> (r: Option<AssertLevel>)
        ensures
            index <= 5 ==> (r matches Some(level) && level.rank() == index),
            index > 5 ==> r is None,
    {
        match index {
            0 => Some(AssertLevel::Off),
            1 => Some(AssertLevel::Error),
            2 => Some(AssertLevel::Warn),
            3 => Some(AssertLevel::Info),
            4 => Some(AssertLevel::Debug),
            5 => Some(AssertLevel::Trace),
            _ => None,
        }
    }

    /// Executable comparison in the severity order.
    pub fn at_most(self, other: AssertLevel) -> (r: bool)
        ensures
            r == self.le_spec(other),
    {
        self.as_index() <= other.as_index()
    }
}

} // verus!
