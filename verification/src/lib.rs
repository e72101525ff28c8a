//! Client library for a remote algorithmic-trading backtest service.
//!
//! The library models the service's wire format (a JSON envelope around
//! renamed data-transfer records), builds the query strings for each remote
//! operation, patches lab parameters by case-insensitive substring match,
//! and drives a lab execution from start through polling to the fetch of
//! the paginated results.  All transport is injected through the
//! [`api::Executor`] trait, so the logic here is verified end to end while
//! an unverified HTTP implementation stays outside the crate.

pub mod api;
pub mod codec;
pub mod domain;
pub mod error;
pub mod lab;
pub mod json;
pub mod model;
pub mod strutil;
pub mod trusted;
