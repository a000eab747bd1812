//! Storage-usage triage: a bounded-concurrency directory-scan scheduler, a
//! file-size histogram and the rules of its CSV report.
//!
//! - `histogram`: the per-run histogram and the size buckets.
//! - `events`: what a scan task reports.
//! - `scheduler`: admission control, the pending queue and completion.
//! - `report`: the header check and the lines written to the report sink.
//! - `decimal`: decimal rendering of counts.
use vstd::prelude::*;

pub mod decimal;
pub mod events;
pub mod histogram;
pub mod report;
pub mod scheduler;

pub use decimal::nice_number;
pub use events::{build_dir_chan, build_dir_chan_done, build_file_chan, ChanResponse, ResponseType};
pub use histogram::{build_result, handle_file, Result};

verus! {

} // verus!
