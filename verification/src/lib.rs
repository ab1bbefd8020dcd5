//! The decision logic of a client for the Kiro API that spreads requests over several
//! credentials.
//!
//! [`provider::KiroProvider`] holds the settings. [`call::RetryCall`] is one call under way: it
//! says what to do next for the call and is told what came of it, until the call ends.
#![allow(unused_imports)]

pub mod backoff;
pub mod call;
pub mod clients;
pub mod conduct;
pub mod error;
pub mod json;
pub mod laws;
pub mod promises;
pub mod protocol;
pub mod provider;
pub mod rate_limit;
pub mod request;
pub mod status;
pub mod text;
