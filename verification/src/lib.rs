//! Screen capture via a device-context graphics pipeline.
//!
//! The library verifies the capture pipeline itself: the ordered, fallible
//! acquisition of a screen device context, a compatible memory context and a
//! compatible bitmap, the block copy and pixel readout between them, and the
//! deterministic release of every acquired handle on every path, success or
//! failure. The raw platform calls are performed by the binary around the
//! library; the library receives their outcomes as plain values and decides
//! everything else.

pub mod error;
pub mod frame;
pub mod handles;
pub mod pipeline;

pub use error::CaptureError;
pub use frame::FrameData;
pub use handles::{Bitmap, CompatibleDeviceContext, DeviceContext};
pub use pipeline::{capture_frame_gdi, CaptureRun, GdiOutcomes, Ledger};
