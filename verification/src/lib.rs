//! Core of a source-code metrics collector: normalizes the output of external
//! analysis tools into findings, spatially correlates pattern findings with
//! measurement findings, aggregates weighted metrics, and plans the concurrent,
//! resumable batch pipeline that drives the work over many repositories.

pub mod rat;
pub mod text;
pub mod tool;
pub mod raw;
pub mod metrics;
pub mod finding;
pub mod extract;
pub mod out;
pub mod src_file;
pub mod correlate;
pub mod repo;
pub mod batch;
