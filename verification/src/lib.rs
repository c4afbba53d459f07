//! Decision logic of an interactive installer for the darling package manager.
//!
//! The library never touches the terminal, the file system or other
//! processes. It is driven from outside: an [`installer::Installer`] names
//! one [`effect::Effect`] at a time, the caller carries it out and reports
//! what came of it as an [`effect::Event`].
//!
//! - [`confirm`]: which answers to a yes/no prompt count as consent.
//! - [`distro`]: reading the distribution from the release file, and naming
//!   the package to search the registry for.
//! - [`catalog`]: the optional modules, and which of them apply to a host.
//! - [`plan`]: the modules approved for installation, in order.
//! - [`layout`]: the paths of an installation below the home directory.
//! - [`effect`]: the effects that a run asks for, and the events that answer.
//! - [`workflow`]: the phases of a run and where each event leads.
//! - [`installer`]: a run, as a state machine that implements the workflow.
//! - [`run`]: what holds of every run.
//! - [`text`]: white space, trimming, lower case.

pub mod catalog;
pub mod confirm;
pub mod distro;
pub mod effect;
pub mod installer;
pub mod layout;
pub mod plan;
pub mod run;
pub mod text;
pub mod workflow;
