//! Decides which published versions of a registry package to report, and
//! how each reported line reads; the network and the terminal are left to
//! the caller.

pub mod errors;
pub mod format;
pub mod report;
pub mod session;
pub mod version;

pub use errors::{
    error_prefix, fail, missing_crate, no_stable_version, resolving_failure, Failure,
    ResolvingError, FAILURE_EXIT_CODE,
};
pub use format::{entry_line, gap_before_marker, indexed_line, yanked_marker, Line};
pub use report::{latest_line, list_lines};
pub use session::{
    crate_url, is_success, user_agent, versions_url, Action, Event, Request, Settings,
};
pub use version::{latest_stable, Version};
