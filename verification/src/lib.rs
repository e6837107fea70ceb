//! Native resource, conversion and diagnostic logic of an ODBC driver for R.

pub mod calendar;
pub mod config;
pub mod error;
pub mod fetch;
pub mod laws;
pub mod parameters;
pub mod text;
pub mod types;
pub mod state;
