//! Client sessions: per-client state, the registry of connected clients,
//! and session operations.
pub mod handler;
pub mod operations;
pub mod registry;
pub mod results;
pub mod session;
pub mod state;

pub use handler::{end_session, handle_client, SessionAction};
pub use operations::{process_logout, process_quit};
pub use registry::ClientRegistry;
pub use results::{LogoutResult, QuitResult};
pub use state::Client;
