//! Governance participation core: a cache-or-fetch router state machine with
//! request coalescing and statistics, and the voter-participation aggregation
//! that joins eligible-voter populations against a vote-event log.

pub mod text;
pub mod participation;
pub mod stake;
pub mod aggregate;
pub mod router;
pub mod health;
