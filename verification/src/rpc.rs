//! The decisions of the dashboard and worker APIs: what a watch stream
//! forwards, what a session may do, and how wire values are checked before
//! they reach the stored rows.
pub mod agent;
pub mod dashboard;
pub mod status;
pub mod watch;
pub mod wire;
