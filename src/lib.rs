//! Runs pacman-style package requests on the native package manager.
//!
//! Flags are canonicalized into an operation identifier (`ops`, `dispatch`);
//! a backend (`apt`, `brew`) turns the operation into a plan of commands with
//! their strategies; and a state machine (`exec`) runs the plan, handling dry
//! runs, prompts and cache cleanup, while the caller performs each action.

use vstd::prelude::*;

pub mod apt;
pub mod brew;
pub mod cmd;
pub mod config;
pub mod dispatch;
pub mod error;
pub mod exec;
pub mod ops;
pub mod pm;
pub mod search;
pub mod strategy;

pub use apt::Apt;
pub use brew::Brew;
pub use cmd::Cmd;
pub use config::Config;
pub use dispatch::{Operations, Opts};
pub use error::Error;
pub use exec::{Action, Answer, Event, Session};
pub use ops::Op;
pub use strategy::{DryRunStrategy, Job, Mode, NoCacheStrategy, PromptStrategy, Strategy};

verus! {

} // verus!
