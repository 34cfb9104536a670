//! Data channels: the per-client registry of data connections, passive and
//! active mode set-up, and the decisions around file transfers.
pub mod channel_registry;
pub mod data_channel;
pub mod file_ops;
pub mod modes;
pub mod operations;
pub mod results;

pub use channel_registry::{ChannelEntry, ChannelRegistry};
pub use operations::{cleanup_data_channel, cleanup_data_stream_only, setup_active_mode, setup_passive_mode};
pub use results::{ActiveModeResult, PassiveModeResult};
pub use data_channel::{setup_data_stream, validate_client_and_data_channel};
pub use file_ops::{handle_file_download, handle_file_upload};
