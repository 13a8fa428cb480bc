//! Client-side logic for a URL-shortening and content-hosting service.
//!
//! The crate builds the HTTP requests that the remote service expects,
//! shapes its JSON replies into a uniform result, computes expiry
//! timestamps, and decides what the command-line frontend prints.

pub mod cli;
pub mod decimal;
pub mod error;
pub mod services;
pub mod timestamps;
pub mod urls;
