use vstd::prelude::*;

use crate::level::AssertLevel;

verus! {

/// The runtime ceiling: the highest severity currently active while the
/// program runs.
///
/// It starts at `Trace`, the most permissive level, and may be lowered or
/// raised any number of times. This type carries the value and its rules;
/// where a process-wide cell is wanted, the embedding program owns that cell
/// and reads it into a plain [`AssertLevel`] at each unconfigured check.
pub struct RuntimeCeiling {
    level: AssertLevel,
}

impl RuntimeCeiling {
    /// The level the ceiling currently holds.
    pub closed spec fn level_spec(self) -> AssertLevel {
        self.level
    }

    /// A fresh ceiling, at the most permissive level, `Trace`.
    pub fn new() -> (r: Self)
        ensures
            r.level_spec() == AssertLevel::Trace,
    {
        Self { level: AssertLevel::Trace }
    }

    /// Overwrites the ceiling; later reads observe `level`.
    pub fn set_max_level(&mut self, level: AssertLevel)
        ensures
            final(self).level_spec() == level,
    {
        self.level = level;
    }

    /// The current ceiling.
    pub fn max_level(&self) -> (r: AssertLevel)
        ensures
            r == self.level_spec(),
    {
        self.level
    }
}

} // verus!
