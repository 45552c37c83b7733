//! Links managed dotfiles into their live locations.
//!
//! The crate holds the rules by which one configured entry is reconciled with
//! the file system, and the configuration that produces the entries. It never
//! touches the file system itself: [`dotfile::Dotfile::sync`] is a step
//! function that answers each reply of its caller with the next request.
//!
//! - [`dotfile`]: the sync engine, a model of the file system, and what holds
//!   of every sync.
//! - [`config`]: the configuration and the values in it that depend on the
//!   machine.
//! - [`path`]: paths made fit for the machine.
//! - [`ui`]: the styled pieces of the lines that are shown.
//! - [`text`]: small operations on text.

pub mod config;
pub mod dotfile;
pub mod path;
pub mod text;
pub mod ui;
