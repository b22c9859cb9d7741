//! Cross-platform querying and requesting of operating-system permissions.
//!
//! A [`PermissionManager`] caches the status of each permission kind and
//! dispatches cache misses to a [`PermissionHandler`], the platform adapter.
//! A request hands the adapter the producing half of a single-value result
//! channel ([`ResultProducer`]) and is resolved once that channel delivers.
//! The per-platform modules say which probe answers each kind and how a
//! probe's raw outcome becomes a status.

pub mod batch;
pub mod cache;
pub mod channel;
pub mod com;
pub mod config;
pub mod linux;
pub mod macos;
pub mod manager;
pub mod traits;
pub mod types;
pub mod wait;
pub mod windows;

pub use batch::{collect_batch, BatchResults, JoinedRequest};
pub use cache::StatusCache;
pub use channel::{result_channel, ProducerState, ResultProducer};
pub use config::{get_windows_app_id, resolve_app_id, set_windows_app_id, AppIdConfig};
pub use manager::PermissionManager;
pub use traits::PermissionHandler;
pub use types::{PermissionError, PermissionResult, PermissionStatus, PermissionType};
