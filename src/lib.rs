//! Ingestion of electricity and heat meter telemetry: two record formats
//! (tab-separated legacy log lines and JSON events) are read into exact
//! milli-unit readings and stored with insert-if-absent statements, either as
//! a batch per log file or one live event at a time.
use vstd::prelude::*;

pub mod adapters;
pub mod batch;
pub mod live;
pub mod parse;
pub mod records;
pub mod store;
pub mod text;

pub use records::{DSMRMeasurements, KamstrupValues};
pub use store::connect_sqlite;

verus! {

} // verus!
