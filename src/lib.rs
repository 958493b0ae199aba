//! Installer and launcher for a set of externally published node binaries.
//!
//! Every workflow of the installer is written as a state machine that never
//! touches the outside world itself: it hands out an [`effect::Effect`] to be
//! performed (check a path, create a directory, run a program, rename a file)
//! and is resumed with the [`effect::Observation`] of what happened. The
//! caller that performs effects is the only place where real I/O happens, so
//! any test can script the outcomes.

use vstd::prelude::*;

pub mod effect;
pub mod paths;
pub mod fetch;
pub mod chain_spec;
pub mod platform;
pub mod orchestrator;
pub mod install;
pub mod serve;
pub mod template;
