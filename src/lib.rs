//! Verified core of an application host: the input translator and its key
//! table, the presentation-surface manager, the lifecycle controller, and the
//! persistent key-value cache.

pub mod keys;
pub mod input;
pub mod surface;
pub mod lifecycle;
pub mod storage;

pub use keys::{Key, KeyCode, map_key};
pub use input::{CursorCommand, HardwareEvent, Input, MouseButton, RawButton, RawEvent};
pub use surface::{AcquireAction, AcquireStatus, SurfaceConfig, SurfaceState, FRAME_LATENCY, select_format};
pub use lifecycle::{Controller, Lifecycle, LifecycleError, Route, WindowSignal, at_least_one};
pub use storage::{Storage, StorageError};
