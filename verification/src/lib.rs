//! Desktop audio output support: backend and device descriptions, device
//! bookkeeping, device-change detection, output configuration selection,
//! DSD container framing, error classification and artwork helpers.

pub mod artwork;
pub mod backend;
pub mod decoder;
pub mod device;
pub mod dsd;
pub mod engine;
pub mod device_check_timeout;
pub mod device_manager;
pub mod device_monitor;
pub mod exclusive;
pub mod metrics;
pub mod playback;
pub mod source_error;
pub mod stream;
pub mod text;
