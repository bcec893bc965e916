//! Session core of a wire-protocol gateway that federates SQL statements to
//! configured peers. The verified library covers statement planning, the
//! per-session executor cache and cursor table, translation of executor
//! output into protocol responses, and the extended-flow parameter rendering
//! and placeholder substitution; network and peer I/O live outside.

pub mod stmt;

pub mod cursors;

pub mod cache;

pub mod error;

pub mod translate;

pub mod dispatch;

pub mod extended;

pub mod auth;

pub mod frame;

pub mod params;
