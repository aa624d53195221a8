//! Leveled, selectively eliminable assertion checks.
//!
//! Every check carries a severity level, and runs only when that level lies
//! at or below each applicable ceiling: a static ceiling fixed for the build,
//! a runtime ceiling the process may lower at any time, and, optionally, a
//! per-call-site override. A disabled check never evaluates its guarded
//! expression at all, so it costs nothing beyond the level comparisons and
//! has no side effects.

pub mod config;
pub mod gate;
pub mod level;
pub mod runtime;

pub use config::AssertConfig;
pub use gate::check_at;
pub use gate::check_at_with;
pub use gate::debug_check;
pub use gate::debug_check_with;
pub use gate::error_check;
pub use gate::error_check_with;
pub use gate::info_check;
pub use gate::info_check_with;
pub use gate::trace_check;
pub use gate::trace_check_with;
pub use gate::warn_check;
pub use gate::warn_check_with;
pub use gate::CheckOutcome;
pub use gate::STATIC_MAX_LEVEL;
pub use level::AssertLevel;
pub use runtime::RuntimeCeiling;
