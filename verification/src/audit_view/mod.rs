//! The security workbench: an audit run, filtered, grouped by finding, counted
//! and ranked.

pub mod filter;
pub mod groups;
pub mod posture;
pub mod row;
pub mod sort;
pub mod table;
pub mod controller;
pub mod findings;
