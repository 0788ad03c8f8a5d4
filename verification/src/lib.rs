//! A small in-process command system.
//!
//! Named, described actions are kept in a registry, looked up by name, and
//! their execution outcomes are reported through a leveled, timestamped,
//! color-coded log. The registry is a plain value with an exact map model;
//! callers that share it between threads wrap it in a lock of their own.

pub mod decimal;

pub mod time;

pub mod logging;

pub mod command;

pub mod registry;

pub mod executor;

