//! Bootstrap of a desktop application shell: plugin registration, window
//! setup and the phases that lead up to the event loop.
pub mod plugin;
pub mod shell;
pub mod window;
