//! The kinds of action.

pub mod command;
pub mod download;
pub mod install;
pub mod link;
pub mod repo;
