//! Data contracts of a CI resource: the check and put envelopes, the list of
//! versions a check reports, and the link to the build that is running.
pub mod check;
pub mod error;
pub mod put;
pub mod url;
