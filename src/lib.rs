//! An idempotent request coordinator: a mutating operation named by a
//! caller-supplied key runs at most once per (user, key) pair, and every
//! retry is answered with the response captured from that single run.
//!
//! `key`, `response`, `claim`, `store`, `coordinator` and `laws` make up the
//! coordinator; the remaining modules hold the decisions of the web
//! application around it (task exit reports, subscription confirmation,
//! password rules, form pages).

pub mod key;
pub mod response;
pub mod claim;
pub mod store;
pub mod coordinator;
pub mod laws;
pub mod tasks;
pub mod confirmation;
pub mod password;
pub mod flash;
pub mod forms;
