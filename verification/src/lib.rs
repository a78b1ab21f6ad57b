//! Supervision of a sidecar: a long-lived local worker process that serves
//! an HTTP API on a loopback port, beside a desktop shell window.
//!
//! The supervisor picks a port, removes leftover workers of earlier runs,
//! stages the worker executable where it is packaged, spawns it, waits until
//! it is healthy, and in the end shuts it down, gracefully if the worker
//! lets it and by force if not.
//!
//! This crate decides, and a driver outside it acts: it runs the commands,
//! binds the sockets, copies the files and makes the HTTP requests. Each
//! component is a small state machine: it hands the driver a step to carry
//! out, takes the driver's report, and decides on the next step. What a
//! component decides is stated over a mathematical model and proved; what
//! holds of every run of it is proved from the model.
//!
//! Two things the crate does itself, through other crates: the port
//! allocator asks a hint source for a port that is unused, and that source
//! tries sockets to find one; and the content of a file to be saved is
//! decoded from base64. What is believed of those two without proof is said
//! where they are called.
//!
//! - [`port`]: the port allocator, with its hint source.
//! - [`process`], [`inspector`], [`listing`]: the vocabulary of process
//!   inspection, its command lines on each platform, and the reading of
//!   their output.
//! - [`reaper`]: the sweep for leftover workers.
//! - [`stager`]: the decision about the staged copy of the worker.
//! - [`launcher`]: the worker's arguments and the order of a launch.
//! - [`health`]: the wait for the worker to become healthy.
//! - [`state`]: the supervisor's record of its worker.
//! - [`shutdown`], [`shutdown_laws`]: the shutdown coordinator, and what
//!   holds of every shutdown.
//! - [`download`], [`navigation`], [`save`]: what the shell window asks of
//!   the supervisor's side: names for downloads, where a navigation may go,
//!   and files to be saved.
//! - [`text`], [`decimal`], [`platform`]: characters, numbers and names.

pub mod decimal;
pub mod download;
pub mod health;
pub mod inspector;
pub mod launcher;
pub mod listing;
pub mod navigation;
pub mod platform;
pub mod port;
pub mod process;
pub mod reaper;
pub mod save;
pub mod shutdown;
pub mod shutdown_laws;
pub mod stager;
pub mod state;
pub mod text;
