//! Client library for a remote, job-based binary analysis API.
//!
//! The library submits files to two services (a decompiler and a file
//! analyzer), polls the status of the remote job until it reaches a terminal
//! state, and retrieves the job's output. Connections are created through a
//! polymorphic factory so that cross-cutting behaviour (such as HTTP status
//! verification) can be layered over the transport without touching the
//! submission and polling logic.

pub mod analysis;
pub mod args;
pub mod connection;
pub mod decompilation;
pub mod decompiler;
pub mod error;
pub mod file;
pub mod fileinfo;
pub mod multipart;
pub mod response;
pub mod settings;
pub mod status;
