//! Network resources declared by an operator, turned into the commands of the
//! host's own tools.
//!
//! Each verb yields a plan: the commands to run, in order. `runner` carries a
//! plan out one command at a time, `store` keeps the port forwards that the
//! host cannot list by itself, and `reconcile` lets a forward into the store,
//! or out of it, only as far as its plan went through.

pub mod bandwidth;
pub mod cli;
pub mod colors;
pub mod command;
pub mod deps;
pub mod diagnostic;
pub mod error;
pub mod firewall;
pub mod forward;
pub mod interface;
pub mod json;
pub mod listing;
pub mod number;
pub mod options;
pub mod platform;
pub mod reconcile;
pub mod route;
pub mod runner;
pub mod scan;
pub mod store;
pub mod text;
pub mod tunnel;
