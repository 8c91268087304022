//! A manager of single-file scripts: each registered script is compiled by
//! an external build tool, its binary cached, and rebuilt only when the
//! digest of its source changes or its binary is missing.
//!
//! `config` holds the registry, `os` the application's paths, `hash` the
//! content digests, `routine` the build strategies and the reading of process
//! results, and `command` the update and run sessions: state machines that
//! say which file or process operation comes next and decide on what each
//! operation reported.
use vstd::prelude::*;

pub mod command;
pub mod config;
pub mod error;
pub mod hash;
pub mod os;
pub mod routine;

verus! {

} // verus!
