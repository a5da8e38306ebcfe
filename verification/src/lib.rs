//! Newsletter management core: the status state machine that fixes a
//! newsletter's persisted status at creation time, the idempotent association
//! between a newsletter and its target contact lists, recipient resolution
//! across list membership, and the batch SMTP send with per-recipient outcome
//! accounting.

pub mod assoc;
pub mod config;
pub mod dispatch;
pub mod email;
pub mod ids;
pub mod lists;
pub mod newsletter;
pub mod recipients;
pub mod response;
pub mod schedule;
pub mod session;
pub mod strings;
