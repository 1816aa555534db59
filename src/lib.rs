//! Failure alerts for synthetic probes: whether to notify, what body each
//! destination receives, and the fail-fast order in which destinations are
//! notified.
pub mod dispatch;
pub mod payload;
pub mod timestamp;
