//! Scaffolding of a small C++ project, as decisions.
//!
//! The library decides what has to happen to create a project: which
//! directories and files with which contents, which invocation of the build
//! tool, what to undo when that fails, and what to tell the user. It touches
//! neither the disk nor any process. Its caller performs each request and
//! hands back the answer.
//!
//! - `dispatch`: from the arguments of the process to the first step.
//! - `scaffold`: the steps, and how an answer leads to the next one.
//! - `request`: what is asked of the caller, and what it may answer.
//! - `template`: the contents of the two generated files.
//! - `failure`: why a run failed, and the message and status for it.
//! - `report`: the last line for the user, coloured by outcome.
//! - `text`: trimming, and what it means that one text holds another.
//! - `world`: a model of disk and build tool, for following a whole run.
//! - `guarantees`: what holds of every run in that model.

pub mod text;
pub mod template;
pub mod failure;
pub mod request;
pub mod scaffold;
pub mod dispatch;
pub mod world;
pub mod guarantees;
pub mod report;
