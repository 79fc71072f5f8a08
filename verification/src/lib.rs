//! Verified core of a manager for one long-running game-server process.
//!
//! The heart of the crate is the supervision of the process: the process
//! slot and the service that owns it (`process`, `service`, `model`), the
//! watcher that notices an exit (`watcher`), the capture of the output
//! into the log (`logs`) with its sanitizer (`sanitize`), and what holds
//! of all of them over any sequence of operations (`history`).
//!
//! Nothing here launches, signals, reads, writes or waits. Every
//! operation is a step from a state and what the application observed to
//! the next state and what the application is to do.
//!
//! Around the heart stand the rules of the services that the application
//! offers beside it: accounts (`auth`, `remote`), backups (`backup`, with
//! `decimal` and `lex`), notifications (`discord`), and the reports of
//! files and of the machine (`files`, `system`).

pub mod auth;
pub mod backup;
pub mod decimal;
pub mod discord;
pub mod error;
pub mod files;
pub mod history;
pub mod launch;
pub mod lex;
pub mod logs;
pub mod model;
pub mod process;
pub mod remote;
pub mod sanitize;
pub mod service;
pub mod status;
pub mod strings;
pub mod system;
pub mod watcher;
