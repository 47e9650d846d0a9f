//! Orchestration of read-mapper benchmarks: configurations, command lines,
//! artifact layout, run decisions and the statistics that come back.
use vstd::prelude::*;

pub mod analyze_mapped_reads;
pub mod benchmarks;
pub mod cli;
pub mod config;
pub mod folder_structure;
pub mod readmappers;
pub mod text;

verus! {

} // verus!
