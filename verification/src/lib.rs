//! A small library that derives a version-control tag name from an
//! operation label and the current source branch, and publishes it through
//! a pluggable repository backend.

mod command;
mod config;
mod repository;

pub use config::join_commas;
pub use config::join_commas_spec;
pub use config::Command;
pub use config::Configuration;
pub use command::make_tag_name;
pub use command::tag_failed;
pub use command::tag_name;
pub use command::tag_succeeded;
pub use repository::FakeRepository;
pub use repository::GitSourceRepository;
pub use repository::RepoError;
pub use repository::ScriptedRepository;
pub use repository::SourceRepository;
