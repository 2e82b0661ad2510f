//! Toby: the job dispatch and execution core of a self-hosted deployment bot.
//!
//! The crate holds the rules of the system as verified functions on plain
//! values: who may submit a job, which id a job gets, which scripts run and
//! when a run is aborted, what is archived, and what each notification
//! channel is told. Reading files, sockets and processes is left to the
//! program around it.

pub mod cancelation;
pub mod config;
pub mod context;
pub mod counter;
pub mod dispatch;
pub mod hook;
pub mod intake;
pub mod ipc;
pub mod job;
pub mod loader;
pub mod os_path;
pub mod runner;
pub mod sandbox;
pub mod secret;
pub mod slack;
pub mod table;
pub mod telegram;
pub mod text;

