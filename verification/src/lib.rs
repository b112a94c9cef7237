//! A conformance test harness for interchangeable fault-proof execution
//! backends: it checks that combinations of execution platform and proof
//! program reproduce a pre-recorded exit status for persisted test fixtures.
//!
//! The crate models the registry of known platforms and programs, the
//! compatibility-matrix resolution, the build orchestration of external
//! components, the construction of host commands, and the staged
//! setup / run / teardown pipeline. All side effects (process spawning,
//! file system access, archive handling) are performed by the embedding
//! binary, which drives the pipeline with plain values.

pub mod command;
pub mod errors;
pub mod fixture;
pub mod orchestrator;
pub mod pattern;
pub mod pipeline;
pub mod platform;
pub mod program;
pub mod registry;
pub mod text;
