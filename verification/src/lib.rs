//! Running external commands and pipelines of them, `A | B | C`, in the
//! manner of a shell script.
//!
//! The library holds every decision of a run and none of the work on the
//! operating system. A [`command::Cmd`] describes one process and a
//! [`pipeline::Pipeline`] a chain of them; a [`plan::Request`] says what the
//! caller wants of the chain's three streams. From these the library
//! derives the disposition of every stream of every stage, and hands out a
//! [`executor::Launcher`]: it names the stage to spawn next and is told how
//! that went. What was launched is covered by an [`executor::Handle`]: it
//! names the child to wait on or the background copy to join next and is
//! told how they ended. When nothing is pending any more, the handle turns
//! into an [`outcome::Outcome`], whose reduction is the result of the run:
//! success, or the failure of the lowest stage that failed.
//!
//! A driver does the work in between: it creates pipes and processes,
//! starts one thread for each stream that the plan has the executor drain,
//! closes every end of a pipe that it has handed on, waits and joins.
//!
//! [`readme`] and [`tasks`] hold the rules of the project's own development
//! tasks, which are run through these pipelines.

pub mod chars;
pub mod command;
pub mod error;
pub mod executor;
pub mod laws;
pub mod outcome;
pub mod pipeline;
pub mod plan;
pub mod readme;
pub mod tasks;
pub mod text;
