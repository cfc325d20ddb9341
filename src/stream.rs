//! Decisions of the frame-streaming adapter.
//!
//! Each poll runs one parse step of the driver. Where the step announces a
//! point cloud, the buffer is retrieved, copied, and released, and a non-empty
//! copy becomes one frame of `(x, y, z)` coordinates. Every other outcome, an
//! empty cloud included, suspends the poll with a request to be polled again
//! at once.
use vstd::prelude::*;
use crate::cloud::{release_of, snapshot_of, PointCloudUnitree};
use crate::point::{MessageType, PointUnitree};

verus! {

/// What a poll does after a parse step.
#[derive(Debug, Clone, Copy, PartialEq, Eq, Structural)]
pub enum PollStep {
    /// Retrieve the cloud that the step assembled.
    RetrieveCloud,
    /// Yield nothing now and ask to be polled again immediately.
    Suspend,
}

/// The step a poll takes after the parse step reported this kind.
pub open spec fn spec_on_message(kind: MessageType) -> PollStep {
    if kind.spec_is_point_cloud() {
        PollStep::RetrieveCloud
    } else {
        PollStep::Suspend
    }
}

/// The frame made of a snapshot: the `(x, y, z)` bit patterns of each point, in
/// order.
pub open spec fn frame_of(pts: Seq<PointUnitree>) -> Seq<(u32, u32, u32)> {
    pts.map_values(|p: PointUnitree| p.spec_xyz())
}

/// The frame a poll yields from a snapshot, or `None` where it suspends.
pub open spec fn yielded(pts: Seq<PointUnitree>) -> Option<Seq<(u32, u32, u32)>> {
    if pts.len() == 0 {
        None
    } else {
        Some(frame_of(pts))
    }
}

/// The step a poll takes after the parse step reported `kind`: only a point
/// cloud is retrieved.
pub fn on_message(kind: MessageType) -> (r: PollStep)
    ensures
        r == spec_on_message(kind),
{
    if kind.is_point_cloud() {
        PollStep::RetrieveCloud
    } else {
        PollStep::Suspend
    }
}

/// The frame of a list of points: the `(x, y, z)` bit patterns of each, in order.
pub fn frame_from_points(pts: &Vec<PointUnitree>) -> (r: Vec<(u32, u32, u32)>)
    ensures
        r@ == frame_of(pts@),
{
    let mut out: Vec<(u32, u32, u32)> = Vec::new();
    let mut i: usize = 0;
    while i < pts.len()
        invariant
            0 <= i <= pts@.len(),
            out@ == frame_of(pts@.subrange(0, i as int)),
        decreases pts@.len() - i,
    {
        out.push(pts[i].xyz());
        proof {
            assert(pts@.subrange(0, i + 1) =~= pts@.subrange(0, i as int).push(pts@[i as int]));
        }
        i = i + 1;
        assert(out@ =~= frame_of(pts@.subrange(0, i as int)));
    }
    assert(pts@.subrange(0, pts@.len() as int) =~= pts@);
    out
}

/// Finishes a poll whose parse step announced a point cloud: copies the
/// retrieved buffer, releases it, and returns the frame to yield (`None`: the
/// copy was empty and the poll suspends) and whether the driver's deallocation
/// routine must run on the buffer's storage.
pub fn take_frame(cloud: &mut PointCloudUnitree) -> (r: (Option<Vec<(u32, u32, u32)>>, bool))
    requires
        old(cloud).wf(),
    ensures
        final(cloud).wf(),
        final(cloud)@ == release_of(old(cloud)@),
        r.1 == old(cloud)@.storage.is_some(),
        match r.0 {
            Some(f) => yielded(snapshot_of(old(cloud)@)) == Some(f@),
            None => yielded(snapshot_of(old(cloud)@)) is None,
        },
{
    let pts = cloud.points();
    let must_free = cloud.release();
    if pts.len() == 0 {
        (None, must_free)
    } else {
        (Some(frame_from_points(&pts)), must_free)
    }
}

/// A yielded frame has one coordinate triple per point of the snapshot, each
/// the point's own `(x, y, z)`, in the snapshot's order; an empty snapshot
/// yields nothing.
pub proof fn lemma_frame_follows_points(pts: Seq<PointUnitree>)
    ensures
        pts.len() == 0 <==> yielded(pts) is None,
        yielded(pts) matches Some(f) ==> f.len() == pts.len() && forall|i: int|
            0 <= i < pts.len() ==> #[trigger] f[i] == (pts[i].x_bits, pts[i].y_bits, pts[i].z_bits),
{
}

} // verus!
