//! Records and tags exchanged with the native driver.
//!
//! The native point record carries five 32-bit floats and one 32-bit integer.
//! Here each float is held as its IEEE-754 bit pattern, so a record is copied
//! bit for bit and nothing is ever rounded.
use vstd::prelude::*;

verus! {

/// One measured point, field for field as the native driver lays it out.
/// `x_bits`, `y_bits`, `z_bits`, `intensity_bits` and `time_bits` are the bit
/// patterns of the native 32-bit floats; `ring` is the laser channel.
#[derive(Debug, Clone, Copy, PartialEq, Eq, Structural)]
pub struct PointUnitree {
    pub x_bits: u32,
    pub y_bits: u32,
    pub z_bits: u32,
    pub intensity_bits: u32,
    pub time_bits: u32,
    pub ring: u32,
}

impl PointUnitree {
    /// The record whose fields are all zero (the bit pattern of `0.0` is zero).
    pub open spec fn zero() -> PointUnitree {
        PointUnitree { x_bits: 0, y_bits: 0, z_bits: 0, intensity_bits: 0, time_bits: 0, ring: 0 }
    }

    /// The `(x, y, z)` bit patterns of this point.
    pub open spec fn spec_xyz(&self) -> (u32, u32, u32) {
        (self.x_bits, self.y_bits, self.z_bits)
    }

    /// The `(x, y, z)` bit patterns of this point.
    #[verifier::when_used_as_spec(spec_xyz)]
    pub fn xyz(&self) -> (r: (u32, u32, u32))
        ensures
            r == self.spec_xyz(),
    {
        (self.x_bits, self.y_bits, self.z_bits)
    }
}

impl Default for PointUnitree {
    fn default() -> (r: PointUnitree)
        ensures
            r == PointUnitree::zero(),
    {
        PointUnitree { x_bits: 0, y_bits: 0, z_bits: 0, intensity_bits: 0, time_bits: 0, ring: 0 }
    }
}

/// Operating mode of the sensor.
#[derive(Debug, Clone, Copy, PartialEq, Eq, Structural)]
pub enum LidarWorkingMode {
    /// Continuous scanning.
    NORMAL,
    /// Idle.
    STANDBY,
}

/// The native tag of a working mode.
pub open spec fn spec_mode_code(m: LidarWorkingMode) -> u32 {
    match m {
        LidarWorkingMode::NORMAL => 1,
        LidarWorkingMode::STANDBY => 2,
    }
}

impl LidarWorkingMode {
    /// The native tag of this mode.
    pub fn code(self) -> (r: u32)
        ensures
            r == spec_mode_code(self),
    {
        match self {
            LidarWorkingMode::NORMAL => 1,
            LidarWorkingMode::STANDBY => 2,
        }
    }
}

/// What the most recent parse step of the driver produced.
#[derive(Debug, Clone, Copy, PartialEq, Eq, Structural)]
pub enum MessageType {
    NONE,
    IMU,
    POINTCLOUD,
    RANGE,
    AUXILIARY,
    VERSION,
    TIMESYNC,
}

/// The native tag of a message kind.
pub open spec fn spec_message_code(t: MessageType) -> u32 {
    match t {
        MessageType::NONE => 0,
        MessageType::IMU => 1,
        MessageType::POINTCLOUD => 2,
        MessageType::RANGE => 3,
        MessageType::AUXILIARY => 4,
        MessageType::VERSION => 5,
        MessageType::TIMESYNC => 6,
    }
}

impl MessageType {
    /// The native tag of this message kind.
    pub fn code(self) -> (r: u32)
        ensures
            r == spec_message_code(self),
    {
        match self {
            MessageType::NONE => 0,
            MessageType::IMU => 1,
            MessageType::POINTCLOUD => 2,
            MessageType::RANGE => 3,
            MessageType::AUXILIARY => 4,
            MessageType::VERSION => 5,
            MessageType::TIMESYNC => 6,
        }
    }

    /// The message kind of a native tag; a tag outside the closed set is `None`.
    pub fn from_code(code: u32) -> (r: Option<MessageType>)
        ensures
            code <= 6 <==> r.is_some(),
            r matches Some(t) ==> spec_message_code(t) == code,
    {
        match code {
            0 => Some(MessageType::NONE),
            1 => Some(MessageType::IMU),
            2 => Some(MessageType::POINTCLOUD),
            3 => Some(MessageType::RANGE),
            4 => Some(MessageType::AUXILIARY),
            5 => Some(MessageType::VERSION),
            6 => Some(MessageType::TIMESYNC),
            _ => None,
        }
    }

    /// Whether this kind announces a complete point cloud.
    pub open spec fn spec_is_point_cloud(self) -> bool {
        self == MessageType::POINTCLOUD
    }

    /// Whether this kind announces a complete point cloud.
    #[verifier::when_used_as_spec(spec_is_point_cloud)]
    pub fn is_point_cloud(self) -> (r: bool)
        ensures
            r == self.spec_is_point_cloud(),
    {
        match self {
            MessageType::POINTCLOUD => true,
            _ => false,
        }
    }
}

} // verus!
