//! A custody controller for a single owned asset balance per account.
//!
//! Three protocols share one mutable resource per account — a vault's
//! alive/frozen state and its deadman timer — and this crate proves that no
//! sequence of calls drives them into an inconsistent state:
//!
//! * a deadman switch that lets a named heir claim after 180 days of owner
//!   silence,
//! * a witness-quorum medical protocol that latches a partial-release unlock
//!   after 3 votes, and
//! * a witness-quorum panic freeze that rewinds the deadman timer so exactly
//!   7 days remain.
//!
//! The surrounding host supplies identity resolution, the ledger clock and
//! per-call atomicity; this crate takes the resolved caller and clock reading
//! as plain values and owns the durable record store itself.

pub mod custody;
pub mod laws;
pub mod model;
pub mod records;
