//! Access to Google Cloud Platform services.

pub mod auth;
