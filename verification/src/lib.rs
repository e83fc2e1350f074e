//! Unlock-decision logic of a session locker.
//!
//! The crate holds the decisions of a screen locker's authentication
//! subsystem as verified state machines.  Each machine maps its state and the
//! outcome of the last requested operation to the next state and the next
//! operation; the surrounding program performs the operations (bus calls,
//! authentication transactions, file locks) and reports what happened.

pub mod text;
pub mod auth;
pub mod sole_instance;
pub mod app;
pub mod config;
pub mod ui;
