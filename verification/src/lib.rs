//! Verified core of rsbuild: command planning, output bookkeeping and text
//! handling for a build runner of Python, Docker, Cython and Rust projects.

pub mod text;
pub mod output;
pub mod error;
pub mod cli;
pub mod executor;
pub mod parallel;
pub mod commands;
pub mod watch;
pub mod progress;
