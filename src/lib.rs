//! Real-time synchronisation core of a collaborative document service: the
//! connection and workspace registries, broadcast planning, and the session
//! and persistence state machines that the server's tasks drive.
pub mod table;
pub mod registry;
pub mod fanout;
pub mod workspaces;
pub mod session;
pub mod persist;
pub mod route;
