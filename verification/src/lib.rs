//! A declarative provisioning engine: an ordered list of actions, each filtered
//! by tags and platforms, each carried out step by step against a host.
//!
//! The library decides; it never touches the machine. An action is run by
//! asking it for its next [`Step`]: either a [`Request`] for the host to
//! carry out, or the [`ActionResult`] with which the action is over.

pub mod actions;
pub mod config;
pub mod filter;
pub mod handler;
pub mod host;
pub mod outcome;
pub mod text;
pub mod vars;

pub use actions::command::CommandRun;
pub use actions::download::FileDownload;
pub use actions::install::PackageInstall;
pub use actions::link::{default_hard, FileLink};
pub use actions::repo::GitHubRepo;
pub use config::{Action, Config, Cursor, Inner, Turn};
pub use filter::{ActionContainer, Platform};
pub use handler::{ActionHandler, ActionRunner, Step};
pub use host::{Context, Location, Reply, Request};
pub use outcome::ActionResult;
pub use vars::evaluate_vars;
