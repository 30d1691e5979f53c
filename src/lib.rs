//! Discovery, probing and batch control of compose projects.
//!
//! The library decides; the program around it reads directories, spawns
//! processes and talks to the user.

pub mod batch;
pub mod command;
pub mod confirm;
pub mod error;
pub mod locate;
pub mod project;
pub mod session;
pub mod status;
pub mod table;
pub mod text;

pub use error::{ba_error, ComposeError};
pub use command::ComposeCommand;
pub use status::ComposeStatus;
pub use project::DockerCompose;
pub use locate::{search_compose_dir, Candidate};
pub use batch::{refresh_composes_status, run_batch, Outcome};
pub use confirm::is_yes;
pub use session::{Action, Event, Plan, Session, Stage};
pub use table::{print_n, render_table};
