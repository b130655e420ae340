//! Launch commands for the context servers that this extension knows.
//!
//! The host editor names a context server; the library answers with the
//! executable, arguments and environment needed to start it, or with a
//! message that names the server it does not know. Nothing is started here:
//! the answer only describes what the host should run.

pub mod launch;
pub mod resolver;
pub mod text;
