//! Completion correlation for a submission/completion I/O ring.
//!
//! A request context is parked in a [`table::ContextTable`] while its
//! operation is in flight; the integer tag the table hands out travels with
//! the submission and comes back on the completion, where it is redeemed
//! exactly once and the signed result code is interpreted
//! ([`cqe::Cqe::get_data`]). [`ring::RingState`] ties the table to the
//! submission queue's leases and tells staged contexts from in-flight ones.
pub mod context;
pub mod cqe;
pub mod flags;
pub mod params;
pub mod ring;
pub mod sqe;
pub mod table;
