//! Verified core of an OAuth credential gateway and its scheduled-job tracker.
//!
//! The crate holds the decisions of the gateway and none of its I/O: how an
//! e-mail address names a tenant, how each provider's token response becomes a
//! canonical credential, how a credential is upserted under its natural key,
//! in which order an exchange asks its collaborators for work, when a
//! scheduled job is due, and which job runs a shutdown sweep cancels. Every
//! function states its result over a mathematical model of its arguments.
//!
//! The token exchange:
//! - [`domain`] takes the domain from an e-mail address;
//! - [`tenant`] resolves a domain to a tenant;
//! - [`provider`] normalizes the responses of the providers;
//! - [`credential`] and [`store`] hold the canonical credential and the
//!   store that keeps one row per key;
//! - [`exchange`] is the exchange as a state machine, to be driven by
//!   whoever talks to the collaborators;
//! - [`coordinator`] drives it against collaborators in memory, and states
//!   what an exchange amounts to.
//!
//! The scheduled jobs:
//! - [`jobs`] is the catalogue of jobs, [`scheduler`] the table of their
//!   due times;
//! - [`runs`] is the record of one run and its phases;
//! - [`sweep`] is the shutdown sweep as a state machine, and [`tracker`]
//!   drives it against a table of runs in memory.
//!
//! Beside them stand the records of the gateway's requests ([`payloads`]),
//! its consent URLs and acknowledgements ([`consent`]), and the status of
//! a request trace ([`span_status`]).
//!
//! Instants are Unix timestamps in whole seconds. A function that needs
//! the present instant takes it as an argument; `advance`, `tick` and
//! `start` read the system clock and hand the instant on.

mod clock;
pub mod consent;
pub mod coordinator;
pub mod credential;
pub mod domain;
pub mod exchange;
pub mod jobs;
pub mod payloads;
pub mod provider;
pub mod runs;
pub mod scheduler;
pub mod span_status;
pub mod store;
pub mod sweep;
pub mod tenant;
pub mod tracker;
