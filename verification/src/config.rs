use vstd::prelude::*;

use crate::level::AssertLevel;

verus! {

/// A per-call-site or per-subsystem ceiling, carried by the caller and
/// handed to a configured check.
///
/// A configuration only narrows the filter: a configured check still
/// consults the static and runtime ceilings, and in addition requires its
/// level to lie at or below the configuration's level.
#[derive(Clone, Copy, Debug, PartialEq, Eq, PartialOrd, Ord, Hash, Structural)]
pub struct AssertConfig {
    assertion_level: AssertLevel,
}

impl AssertConfig {
    /// The level this configuration permits.
    pub closed spec fn level_spec(self) -> AssertLevel {
        self.assertion_level
    }

    /// Builds a configuration permitting checks up to `assertion_level`.
    pub fn new(assertion_level: AssertLevel) -> (r: Self)
        ensures
            r.level_spec() == assertion_level,
    {
        Self { assertion_level }
    }

    /// The level this configuration permits.
    pub fn assertion_level(&self) -> (r: AssertLevel)
        ensures
            r == self.level_spec(),
    {
        self.assertion_level
    }
}

} // verus!
