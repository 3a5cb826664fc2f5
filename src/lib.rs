//! A catalog of user-submitted movies behind session-authenticated writes.
//!
//! The library holds the decisions of the service: how a session is checked,
//! how a new movie moves through the two stores, and how each outcome becomes
//! a JSON reply. The document store and the blob store are driven by the
//! caller, which performs each requested action and hands the reply back.
pub mod model;
pub mod response;
pub mod session;
pub mod guard;
pub mod accounts;
pub mod writer;
pub mod reader;
pub mod laws;
