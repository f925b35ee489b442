//! Logic of a one-file deployer: it uploads a local file to a server
//! endpoint once at startup and, in watch mode, again on every change of
//! the file.
//!
//! The library holds everything that decides: building the upload request,
//! classifying the server's answer, the startup checks with their exit
//! codes, and the state machine of the watch loop. The surrounding process
//! reads the file, sends the request and listens for change notifications,
//! and hands the library plain values.

pub mod startup;
pub mod target;
pub mod upload;
pub mod watch;
