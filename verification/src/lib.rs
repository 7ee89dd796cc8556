//! Verified core of a host property checker.
//!
//! A check suite pairs an inventory of host groups with checks; every check
//! binds a group to properties that are probed over one of six wire
//! protocols.  This crate holds the data model, the suite extraction from a
//! YAML document tree, the protocol challenge types, the module adapter, the
//! execution engine and the result model, each with its contract.

pub mod adapter;
pub mod checks;
pub mod engine;
pub mod modules;
pub mod protocols;
pub mod summary;
pub mod table;
pub mod text;
pub mod yaml;
