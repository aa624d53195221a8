use vstd::prelude::*;

use crate::config::AssertConfig;
use crate::level::AssertLevel;

verus! {

/// The highest severity compiled into this build of the library. A build
/// narrowed at compile time picks a lower value; absent such a choice the
/// ceiling is `Trace`, the most permissive level, and every check is left
/// in the binary. The general operations [`check_at`] and [`check_at_with`]
/// take the static ceiling as an argument, so a caller with a narrower
/// build-time ceiling passes its own value there.
pub const STATIC_MAX_LEVEL: AssertLevel = AssertLevel::Trace;

/// What came of one gated check.
#[derive(Clone, Copy, Debug, PartialEq, Eq, Hash, Structural)]
pub enum CheckOutcome {
    /// The check was disabled: the guarded expression was never evaluated.
    Skipped,
    /// The check ran and its expression held.
    Passed,
    /// The check ran and its expression was false; the caller owes a report
    /// to its failure facility.
    Failed,
}

impl CheckOutcome {
    /// The check ran and found its expression false.
    pub fn failed(self) -> (r: bool)
        ensures
            r == (self is Failed),
    {
        match self {
            CheckOutcome::Failed => true,
            _ => false,
        }
    }
}

/// The unconfigured gate: a check at `target` runs exactly when `target`
/// lies at or below both the static ceiling and the runtime ceiling.
pub open spec fn gate_passes(
    target: AssertLevel,
    static_ceiling: AssertLevel,
    runtime_ceiling: AssertLevel,
) -> bool {
    target.le_spec(static_ceiling) && target.le_spec(runtime_ceiling)
}

/// The configured gate: both ceilings of the unconfigured gate still apply,
/// and the configuration's own level besides, so a configuration narrows
/// the filter and never widens it.
pub open spec fn gate_passes_with(
    target: AssertLevel,
    static_ceiling: AssertLevel,
    runtime_ceiling: AssertLevel,
    config: AssertConfig,
) -> bool {
    gate_passes(target, static_ceiling, runtime_ceiling) && target.le_spec(config.level_spec())
}

/// Runs one check at level `target` under the given ceilings.
///
/// The guarded expression `cond` is evaluated when and only when
/// `gate_passes` holds; a skipped check therefore has none of the
/// expression's effects and needs none of its preconditions.
pub fn check_at<F: FnOnce() -> bool>(
    target: AssertLevel,
    static_ceiling: AssertLevel,
    runtime_ceiling: AssertLevel,
    cond: F,
) -> (r: CheckOutcome)
    requires
        gate_passes(target, static_ceiling, runtime_ceiling) ==> call_requires(cond, ()),
    ensures
        r is Skipped <==> !gate_passes(target, static_ceiling, runtime_ceiling),
        r is Passed ==> call_ensures(cond, (), true),
        r is Failed ==> call_ensures(cond, (), false),
{
    if target.at_most(static_ceiling) && target.at_most(runtime_ceiling) {
        if cond() {
            CheckOutcome::Passed
        } else {
            CheckOutcome::Failed
        }
    } else {
        CheckOutcome::Skipped
    }
}

/// Runs one check at level `target` under the given ceilings and the
/// per-call-site `config`.
///
/// As with [`check_at`], the guarded expression is evaluated when and only
/// when `gate_passes_with` holds.
pub fn check_at_with<F: FnOnce() -> bool>(
    target: AssertLevel,
    static_ceiling: AssertLevel,
    runtime_ceiling: AssertLevel,
    config: &AssertConfig,
    cond: F,
) -> (r: CheckOutcome)
    requires
        gate_passes_with(target, static_ceiling, runtime_ceiling, *config) ==> call_requires(
            cond,
            (),
        ),
    ensures
        r is Skipped <==> !gate_passes_with(target, static_ceiling, runtime_ceiling, *config),
        r is Passed ==> call_ensures(cond, (), true),
        r is Failed ==> call_ensures(cond, (), false),
{
    if target.at_most(static_ceiling) && target.at_most(runtime_ceiling) && target.at_most(
        config.assertion_level(),
    ) {
        if cond() {
            CheckOutcome::Passed
        } else {
            CheckOutcome::Failed
        }
    } else {
        CheckOutcome::Skipped
    }
}

/// An `Error`-level check gated on the build's static ceiling and
/// `runtime_ceiling`.
pub fn error_check<F: FnOnce() -> bool>(runtime_ceiling: AssertLevel, cond: F) -> (r: CheckOutcome)
    requires
        gate_passes(AssertLevel::Error, STATIC_MAX_LEVEL, runtime_ceiling) ==> call_requires(
            cond,
            (),
        ),
    ensures
        r is Skipped <==> !gate_passes(AssertLevel::Error, STATIC_MAX_LEVEL, runtime_ceiling),
        r is Passed ==> call_ensures(cond, (), true),
        r is Failed ==> call_ensures(cond, (), false),
{
    check_at(AssertLevel::Error, STATIC_MAX_LEVEL, runtime_ceiling, cond)
}

/// An `Error`-level check gated, besides the ceilings, on `config`.
pub fn error_check_with<F: FnOnce() -> bool>(
    runtime_ceiling: AssertLevel,
    config: &AssertConfig,
    cond: F,
) -> (r: CheckOutcome)
    requires
        gate_passes_with(AssertLevel::Error, STATIC_MAX_LEVEL, runtime_ceiling, *config)
            ==> call_requires(cond, ()),
    ensures
        r is Skipped <==> !gate_passes_with(
            AssertLevel::Error,
            STATIC_MAX_LEVEL,
            runtime_ceiling,
            *config,
        ),
        r is Passed ==> call_ensures(cond, (), true),
        r is Failed ==> call_ensures(cond, (), false),
{
    check_at_with(AssertLevel::Error, STATIC_MAX_LEVEL, runtime_ceiling, config, cond)
}

/// A `Warn`-level check gated on the build's static ceiling and
/// `runtime_ceiling`.
pub fn warn_check<F: FnOnce() -> bool>(runtime_ceiling: AssertLevel, cond: F) -> (r: CheckOutcome)
    requires
        gate_passes(AssertLevel::Warn, STATIC_MAX_LEVEL, runtime_ceiling) ==> call_requires(
            cond,
            (),
        ),
    ensures
        r is Skipped <==> !gate_passes(AssertLevel::Warn, STATIC_MAX_LEVEL, runtime_ceiling),
        r is Passed ==> call_ensures(cond, (), true),
        r is Failed ==> call_ensures(cond, (), false),
{
    check_at(AssertLevel::Warn, STATIC_MAX_LEVEL, runtime_ceiling, cond)
}

/// A `Warn`-level check gated, besides the ceilings, on `config`.
pub fn warn_check_with<F: FnOnce() -> bool>(
    runtime_ceiling: AssertLevel,
    config: &AssertConfig,
    cond: F,
) -> (r: CheckOutcome)
    requires
        gate_passes_with(AssertLevel::Warn, STATIC_MAX_LEVEL, runtime_ceiling, *config)
            ==> call_requires(cond, ()),
    ensures
        r is Skipped <==> !gate_passes_with(
            AssertLevel::Warn,
            STATIC_MAX_LEVEL,
            runtime_ceiling,
            *config,
        ),
        r is Passed ==> call_ensures(cond, (), true),
        r is Failed ==> call_ensures(cond, (), false),
{
    check_at_with(AssertLevel::Warn, STATIC_MAX_LEVEL, runtime_ceiling, config, cond)
}

/// An `Info`-level check gated on the build's static ceiling and
/// `runtime_ceiling`.
pub fn info_check<F: FnOnce() -> bool>(runtime_ceiling: AssertLevel, cond: F) -> (r: CheckOutcome)
    requires
        gate_passes(AssertLevel::Info, STATIC_MAX_LEVEL, runtime_ceiling) ==> call_requires(
            cond,
            (),
        ),
    ensures
        r is Skipped <==> !gate_passes(AssertLevel::Info, STATIC_MAX_LEVEL, runtime_ceiling),
        r is Passed ==> call_ensures(cond, (), true),
        r is Failed ==> call_ensures(cond, (), false),
{
    check_at(AssertLevel::Info, STATIC_MAX_LEVEL, runtime_ceiling, cond)
}

/// An `Info`-level check gated, besides the ceilings, on `config`.
pub fn info_check_with<F: FnOnce() -> bool>(
    runtime_ceiling: AssertLevel,
    config: &AssertConfig,
    cond: F,
) -> (r: CheckOutcome)
    requires
        gate_passes_with(AssertLevel::Info, STATIC_MAX_LEVEL, runtime_ceiling, *config)
            ==> call_requires(cond, ()),
    ensures
        r is Skipped <==> !gate_passes_with(
            AssertLevel::Info,
            STATIC_MAX_LEVEL,
            runtime_ceiling,
            *config,
        ),
        r is Passed ==> call_ensures(cond, (), true),
        r is Failed ==> call_ensures(cond, (), false),
{
    check_at_with(AssertLevel::Info, STATIC_MAX_LEVEL, runtime_ceiling, config, cond)
}

/// A `Debug`-level check gated on the build's static ceiling and
/// `runtime_ceiling`.
pub fn debug_check<F: FnOnce() -> bool>(runtime_ceiling: AssertLevel, cond: F) -> (r: CheckOutcome)
    requires
        gate_passes(AssertLevel::Debug, STATIC_MAX_LEVEL, runtime_ceiling) ==> call_requires(
            cond,
            (),
        ),
    ensures
        r is Skipped <==> !gate_passes(AssertLevel::Debug, STATIC_MAX_LEVEL, runtime_ceiling),
        r is Passed ==> call_ensures(cond, (), true),
        r is Failed ==> call_ensures(cond, (), false),
{
    check_at(AssertLevel::Debug, STATIC_MAX_LEVEL, runtime_ceiling, cond)
}

/// A `Debug`-level check gated, besides the ceilings, on `config`.
pub fn debug_check_with<F: FnOnce() -> bool>(
    runtime_ceiling: AssertLevel,
    config: &AssertConfig,
    cond: F,
) -> (r: CheckOutcome)
    requires
        gate_passes_with(AssertLevel::Debug, STATIC_MAX_LEVEL, runtime_ceiling, *config)
            ==> call_requires(cond, ()),
    ensures
        r is Skipped <==> !gate_passes_with(
            AssertLevel::Debug,
            STATIC_MAX_LEVEL,
            runtime_ceiling,
            *config,
        ),
        r is Passed ==> call_ensures(cond, (), true),
        r is Failed ==> call_ensures(cond, (), false),
{
    check_at_with(AssertLevel::Debug, STATIC_MAX_LEVEL, runtime_ceiling, config, cond)
}

/// A `Trace`-level check gated on the build's static ceiling and
/// `runtime_ceiling`.
pub fn trace_check<F: FnOnce() -> bool>(runtime_ceiling: AssertLevel, cond: F) -> (r: CheckOutcome)
    requires
        gate_passes(AssertLevel::Trace, STATIC_MAX_LEVEL, runtime_ceiling) ==> call_requires(
            cond,
            (),
        ),
    ensures
        r is Skipped <==> !gate_passes(AssertLevel::Trace, STATIC_MAX_LEVEL, runtime_ceiling),
        r is Passed ==> call_ensures(cond, (), true),
        r is Failed ==> call_ensures(cond, (), false),
{
    check_at(AssertLevel::Trace, STATIC_MAX_LEVEL, runtime_ceiling, cond)
}

/// A `Trace`-level check gated, besides the ceilings, on `config`.
pub fn trace_check_with<F: FnOnce() -> bool>(
    runtime_ceiling: AssertLevel,
    config: &AssertConfig,
    cond: F,
) -> (r: CheckOutcome)
    requires
        gate_passes_with(AssertLevel::Trace, STATIC_MAX_LEVEL, runtime_ceiling, *config)
            ==> call_requires(cond, ()),
    ensures
        r is Skipped <==> !gate_passes_with(
            AssertLevel::Trace,
            STATIC_MAX_LEVEL,
            runtime_ceiling,
            *config,
        ),
        r is Passed ==> call_ensures(cond, (), true),
        r is Failed ==> call_ensures(cond, (), false),
{
    check_at_with(AssertLevel::Trace, STATIC_MAX_LEVEL, runtime_ceiling, config, cond)
}

/// A configuration never widens the filter: whenever the configured check
/// is enabled, the unconfigured one is enabled as well.
pub proof fn lemma_config_never_widens(
    target: AssertLevel,
    static_ceiling: AssertLevel,
    runtime_ceiling: AssertLevel,
    config: AssertConfig,
)
    ensures
        gate_passes_with(target, static_ceiling, runtime_ceiling, config) ==> gate_passes(
            target,
            static_ceiling,
            runtime_ceiling,
        ),
{
}

/// A check whose level lies above the configuration's level is disabled,
/// whatever the runtime ceiling holds.
pub proof fn lemma_config_narrows(
    target: AssertLevel,
    static_ceiling: AssertLevel,
    runtime_ceiling: AssertLevel,
    config: AssertConfig,
)
    requires
        !target.le_spec(config.level_spec()),
    ensures
        !gate_passes_with(target, static_ceiling, runtime_ceiling, config),
{
}

/// Lowering the runtime ceiling below a check's level disables that check,
/// whatever the static ceiling.
pub proof fn lemma_lowered_ceiling_filters(
    target: AssertLevel,
    static_ceiling: AssertLevel,
    runtime_ceiling: AssertLevel,
)
    requires
        !target.le_spec(runtime_ceiling),
    ensures
        !gate_passes(target, static_ceiling, runtime_ceiling),
{
}

/// With `Off` as the static ceiling, every check is disabled, whatever the
/// runtime ceiling or any configuration says. (`Off` itself is the level of
/// no check: the gated operations run at `Error` through `Trace`.)
pub proof fn lemma_off_disables_all(
    target: AssertLevel,
    runtime_ceiling: AssertLevel,
    config: AssertConfig,
)
    requires
        target != AssertLevel::Off,
    ensures
        !gate_passes(target, AssertLevel::Off, runtime_ceiling),
        !gate_passes_with(target, AssertLevel::Off, runtime_ceiling, config),
{
}

} // verus!
