use unitree_lidar::{
    frame_from_points, on_message, take_frame, MessageType, PointCloudUnitree, PointUnitree,
    PollStep,
};

fn point(x: f32, y: f32, z: f32) -> PointUnitree {
    PointUnitree {
        x_bits: x.to_bits(),
        y_bits: y.to_bits(),
        z_bits: z.to_bits(),
        intensity_bits: 9.0f32.to_bits(),
        time_bits: 0.5f32.to_bits(),
        ring: 3,
    }
}

/// One poll against a scripted parse result and, for a point cloud, the buffer
/// the driver hands out. Returns the frame as double-precision triples, if any,
/// and how many deallocations were asked for.
fn poll(kind: MessageType, cloud: Option<PointCloudUnitree>) -> (Option<Vec<[f64; 3]>>, u32) {
    match on_message(kind) {
        PollStep::Suspend => (None, 0),
        PollStep::RetrieveCloud => {
            let mut c = cloud.unwrap();
            let (frame, must_free) = take_frame(&mut c);
            let frees = if must_free { 1 } else { 0 };
            let frame = frame.map(|f| {
                f.iter()
                    .map(|&(x, y, z)| {
                        [
                            f32::from_bits(x) as f64,
                            f32::from_bits(y) as f64,
                            f32::from_bits(z) as f64,
                        ]
                    })
                    .collect()
            });
            (frame, frees)
        }
    }
}

#[test]
fn stream_suspends_three_times_then_yields_frame() {
    let first = point(1.5, -2.25, 0.125);
    let second = point(-7.0, 3.0e-3, 100.0);
    let empty = PointCloudUnitree::from_native(0, 1, 18, None, 0, 0);
    let full = PointCloudUnitree::from_native(0, 2, 18, Some(vec![first, second]), 2, 4);
    let script = vec![
        (MessageType::NONE, None),
        (MessageType::RANGE, None),
        (MessageType::POINTCLOUD, Some(empty)),
        (MessageType::POINTCLOUD, Some(full)),
    ];
    let mut suspended = 0;
    let mut frames = Vec::new();
    let mut frees = 0;
    for (kind, cloud) in script {
        let (frame, f) = poll(kind, cloud);
        frees += f;
        match frame {
            None => suspended += 1,
            Some(fr) => frames.push(fr),
        }
    }
    assert_eq!(suspended, 3);
    assert_eq!(frames.len(), 1);
    assert_eq!(
        frames[0],
        vec![[1.5f32 as f64, -2.25f32 as f64, 0.125f32 as f64], [-7.0f32 as f64, 3.0e-3f32 as f64, 100.0f32 as f64]]
    );
    assert_eq!(frees, 1);
}

#[test]
fn only_point_cloud_retrieves() {
    assert_eq!(on_message(MessageType::POINTCLOUD), PollStep::RetrieveCloud);
    assert_eq!(on_message(MessageType::NONE), PollStep::Suspend);
    assert_eq!(on_message(MessageType::IMU), PollStep::Suspend);
    assert_eq!(on_message(MessageType::AUXILIARY), PollStep::Suspend);
    assert_eq!(on_message(MessageType::VERSION), PollStep::Suspend);
    assert_eq!(on_message(MessageType::TIMESYNC), PollStep::Suspend);
}

#[test]
fn empty_storage_cloud_is_freed_but_not_yielded() {
    let mut c = PointCloudUnitree::from_native(0, 5, 18, Some(Vec::new()), 0, 16);
    let (frame, must_free) = take_frame(&mut c);
    assert!(frame.is_none());
    assert!(must_free);
    assert!(!c.has_storage());
}

#[test]
fn frame_keeps_point_order() {
    let pts = vec![point(1.0, 2.0, 3.0), point(4.0, 5.0, 6.0), point(7.0, 8.0, 9.0)];
    let f = frame_from_points(&pts);
    assert_eq!(
        f,
        vec![
            (1.0f32.to_bits(), 2.0f32.to_bits(), 3.0f32.to_bits()),
            (4.0f32.to_bits(), 5.0f32.to_bits(), 6.0f32.to_bits()),
            (7.0f32.to_bits(), 8.0f32.to_bits(), 9.0f32.to_bits()),
        ]
    );
}
