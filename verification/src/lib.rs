//! Process lifecycle and output streaming for local development servers.
//!
//! The library resolves a launch command into an executable and its
//! arguments, describes how the child process is to be spawned, frames the
//! child's output streams into lines, keeps the table of running processes
//! and asks the operating system to end one of them.
//!
//! Around that core it decides what the companion of a project's
//! development server needs decided: which framework and package manager a
//! project uses, which commands create a project or change its
//! dependencies, what their results mean, and how the desktop is asked to
//! open an editor or a file browser. The library reads no file and spawns
//! no process; what it plans is carried out by its caller.

pub mod command;
pub mod creation;
pub mod desktop;
pub mod detect;
pub mod folders;
pub mod launch;
pub mod lines;
pub mod node;
pub mod packages;
pub mod registry;
pub mod relay;
pub mod shell;
pub mod status;
pub mod terminate;
