//! Client-side orchestration of browser-automation test scripts.
//!
//! A test is a list of steps kept by a remote step source. This library holds
//! the decisions of a run: in which order the steps are taken, how each step
//! becomes an invocation of the automation executable, how an exit is judged,
//! how the outcomes add up to a summary, and what is shown and sent along the
//! way. It performs no input or output itself: a driver carries out the
//! actions it hands back and feeds in what happened.
//!
//! - [`orchestrator`]: the run as a state machine, from fetching the steps to
//!   the summary.
//! - [`trace`]: whole runs, and what holds of every run: steps run by
//!   ascending order, a failing step does not stop the run, a fetch that
//!   fails stops it before any step.
//! - [`plan`]: the order in which steps are taken.
//! - [`executor`]: from a step to an invocation, from an exit to an outcome.
//! - [`reporter`]: the lines for the user, and the report for the source.
//! - [`source`]: the requests to the step source, and how answers are read.
//! - [`summary`]: what a run came to.
//! - [`browser`]: the arguments of the `browser` command.
//! - [`records`], [`listing`]: the commands on the other records of the
//!   service, and the lines that show them.
//! - [`types`], [`json`], [`encode`], [`text`]: records, request bodies,
//!   percent-encoding, and text.

pub mod browser;
pub mod encode;
pub mod executor;
pub mod json;
pub mod listing;
pub mod orchestrator;
pub mod plan;
pub mod records;
pub mod reporter;
pub mod source;
pub mod summary;
pub mod text;
pub mod trace;
pub mod types;
