//! Core logic of a webhook service for a chat platform: it authenticates
//! inbound events by a keyed signature, classifies them into one of several
//! interaction shapes, recovers submitted form fields from a nested view
//! document, and composes the requests and the aggregated status report for
//! the side effects a submission triggers.
//!
//! Everything here is pure computation over plain values. The surrounding
//! binary performs the HTTP, mail and database traffic and hands the results
//! back as values.

pub mod calendar;
pub mod classify;
pub mod config;
pub mod event;
pub mod extract;
pub mod orchestrate;
pub mod signature;
