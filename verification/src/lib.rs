//! Decision logic of a desktop shell that supervises a local backend server:
//! where the server's files are looked for, how it is started, when its port
//! counts as ready, and what the window is told at each step.
//!
//! The library decides and the caller acts. Nothing here reads the disk,
//! starts a process, opens a socket, sleeps, or talks to a window.
//!
//! - [`locate`]: the places of the server archive and of the Java launcher.
//! - [`launch`]: the command line of the backend process.
//! - [`probe`]: the wait for the backend's port, step by step.
//! - [`status`]: the status lines, and the scripts that bring them to the page.
//! - [`coordinator`]: one window session, from the window's start to its close.
//! - [`text`]: decimal numbers as text.

pub mod coordinator;
pub mod launch;
pub mod locate;
pub mod probe;
pub mod status;
pub mod text;
