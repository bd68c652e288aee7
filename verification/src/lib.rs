//! `pacaptr` is a `pacman`-like syntax wrapper for many package managers.
//!
//! This crate holds the decision logic: how the `pacman` flags given on the
//! command line become a method such as `suy`, how the package manager is
//! chosen, which native commands each method maps to, and how a command is
//! adjusted for dry runs, prompts and cache cleaning before it is run.

pub mod config;
pub mod dispatch;
pub mod dpkg;
pub mod error;
pub mod exec;
pub mod plan;
pub mod pm;
pub mod print;
pub mod select;
pub mod strings;
pub mod text;
