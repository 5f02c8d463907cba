//! A schema of named tables that share one embedded key-value engine:
//! validation of the declared tables, resolution of per-table engine options,
//! the plan by which the tables are opened, and paged inspection of what they
//! hold.

pub mod introspect;
pub mod open;
pub mod options;
pub mod schema;
