use unitree_lidar::{LidarWorkingMode, MessageType, PointUnitree};

#[test]
fn default_point_is_all_zero() {
    let p = PointUnitree::default();
    assert_eq!(p.x_bits, 0.0f32.to_bits());
    assert_eq!(p.y_bits, 0);
    assert_eq!(p.z_bits, 0);
    assert_eq!(p.intensity_bits, 0);
    assert_eq!(p.time_bits, 0);
    assert_eq!(p.ring, 0);
}

#[test]
fn working_mode_codes() {
    assert_eq!(LidarWorkingMode::NORMAL.code(), 1);
    assert_eq!(LidarWorkingMode::STANDBY.code(), 2);
}

#[test]
fn message_codes_round_trip() {
    let kinds = [
        MessageType::NONE,
        MessageType::IMU,
        MessageType::POINTCLOUD,
        MessageType::RANGE,
        MessageType::AUXILIARY,
        MessageType::VERSION,
        MessageType::TIMESYNC,
    ];
    for (i, k) in kinds.iter().enumerate() {
        assert_eq!(k.code(), i as u32);
        assert_eq!(MessageType::from_code(i as u32), Some(*k));
    }
    assert_eq!(MessageType::from_code(7), None);
    assert_eq!(MessageType::from_code(u32::MAX), None);
}

#[test]
fn only_point_cloud_kind_is_point_cloud() {
    assert!(MessageType::POINTCLOUD.is_point_cloud());
    assert!(!MessageType::NONE.is_point_cloud());
    assert!(!MessageType::RANGE.is_point_cloud());
    assert!(!MessageType::TIMESYNC.is_point_cloud());
}

#[test]
fn xyz_picks_coordinates() {
    let p = PointUnitree { x_bits: 1, y_bits: 2, z_bits: 3, intensity_bits: 4, time_bits: 5, ring: 6 };
    assert_eq!(p.xyz(), (1, 2, 3));
}
