//! Verified core of a driver layer for a spinning LiDAR sensor: the layout of
//! the point records exchanged with the native driver, the ownership protocol of
//! the driver-allocated point buffer, the decisions taken while opening and
//! closing a session, the decisions of the frame-streaming adapter, and
//! fixed-capacity version text.
pub mod cloud;
pub mod point;
pub mod session;
pub mod stream;
pub mod version;

pub use cloud::{CloudView, PointCloudUnitree};
pub use point::{LidarWorkingMode, MessageType, PointUnitree};
pub use session::{
    open_step, port_c_string, start_open, LidarError, OpenAction, OpenEvent, OpenStage,
    SessionLease,
};
pub use stream::{frame_from_points, on_message, take_frame, PollStep};
pub use version::{fixed_text, version_text, VERSION_CAPACITY};
