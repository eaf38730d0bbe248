//! Decisions behind a one-shot weather station report.
//!
//! A run resolves an access key, asks the observation service for the current
//! reading of one station, converts the payload into a record labelled with the
//! requested unit system, and renders that record as JSON text. This crate holds
//! every decision of such a run; the network exchanges themselves are left to
//! the caller, who performs the requests that the run asks for and hands the
//! replies back.

pub mod failure;
pub mod options;
pub mod pipeline;
pub mod record;
pub mod unit;
