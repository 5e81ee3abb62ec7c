//! Compile-and-test orchestration engine for a small C/C++ project helper.
//!
//! The library holds the verified core: resolving a region name or path to a
//! set of target directories, planning and interpreting compiler invocations,
//! pairing test fixtures by filename convention, judging fixture runs and
//! aggregating them into a report, and sequencing pipeline stages with
//! fail-fast semantics. Process spawning, filesystem access and configuration
//! persistence live outside the library and hand it plain values.

pub mod compile;
pub mod config;
pub mod fixture;
pub mod orchestrator;
pub mod pipeline;
pub mod region;
pub mod runner;
pub mod util;

use vstd::prelude::*;

verus! {

/// Exit code for a run in which every requested operation succeeded.
pub const EXIT_OK: u8 = 0;
/// Exit code for configuration errors (unknown target, region conflicts).
pub const EXIT_CONFIG_ERROR: u8 = 1;
/// Exit code for a failed compilation.
pub const EXIT_COMPILE_ERROR: u8 = 2;
/// Exit code when at least one test fixture failed.
pub const EXIT_TEST_FAILURE: u8 = 3;
/// Exit code for a pipeline stage failure.
pub const EXIT_PIPELINE_ERROR: u8 = 4;

} // verus!
