//! Exports the metadata of the items of a password store as bookmark files
//! in a legacy format, and keeps the export up to date while the store
//! changes.
//!
//! The library holds the decisions of an export: what the version cache
//! remembers ([`cache`]), which vaults have to be fetched anew ([`planner`]),
//! which changes in the store's data directory start an export ([`monitor`]),
//! what the store's command line tool is asked and what its answers mean
//! ([`query`], [`op`], [`stream`]), and what is written for each item
//! ([`op7_metadata`]). It runs no command and touches no file: the program
//! around it does, and hands over what it read.

pub mod cache;
pub mod cli;
pub mod model;
pub mod monitor;
pub mod op;
pub mod op7_metadata;
pub mod planner;
pub mod query;
pub mod stream;
