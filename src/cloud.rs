//! The point-cloud buffer handed out by the native driver, and its single
//! release protocol.
//!
//! The storage behind the buffer belongs to the driver's allocator. The model
//! below records whether that storage is present, which points it holds, and
//! the length and capacity the driver reported; `release` tells its caller
//! whether the driver's deallocation routine must run, and leaves the buffer in
//! a state where no second deallocation is ever asked for.
use vstd::prelude::*;
use crate::point::PointUnitree;

verus! {

/// Abstract state of a point-cloud buffer.
pub struct CloudView {
    pub stamp_bits: u64,
    pub id: u32,
    pub ring_num: u32,
    /// The points of the driver-owned storage, or `None` where no storage is held.
    pub storage: Option<Seq<PointUnitree>>,
    pub len: nat,
    pub capacity: nat,
}

/// Storage that is present holds exactly `len` points, within `capacity`.
pub open spec fn cloud_wf(v: CloudView) -> bool {
    match v.storage {
        Some(s) => s.len() == v.len && v.len <= v.capacity,
        None => true,
    }
}

/// The owned copy that a snapshot yields: the stored points in order, and
/// nothing where the storage is absent or the length is zero.
pub open spec fn snapshot_of(v: CloudView) -> Seq<PointUnitree> {
    match v.storage {
        Some(s) => if v.len == 0 { Seq::empty() } else { s },
        None => Seq::empty(),
    }
}

/// The state after a release: with storage present, the storage, length and
/// capacity are cleared; without storage, nothing changes.
pub open spec fn release_of(v: CloudView) -> CloudView {
    match v.storage {
        Some(_) => CloudView { storage: None, len: 0, capacity: 0, ..v },
        None => v,
    }
}

/// A point-cloud buffer: scan metadata and the driver-owned points.
/// `stamp_bits` is the bit pattern of the native 64-bit scan timestamp.
pub struct PointCloudUnitree {
    pub stamp_bits: u64,
    pub id: u32,
    pub ring_num: u32,
    storage: Option<Vec<PointUnitree>>,
    points_len: usize,
    points_capacity: usize,
}

impl View for PointCloudUnitree {
    type V = CloudView;

    closed spec fn view(&self) -> CloudView {
        CloudView {
            stamp_bits: self.stamp_bits,
            id: self.id,
            ring_num: self.ring_num,
            storage: match self.storage {
                Some(v) => Some(v@),
                None => None,
            },
            len: self.points_len as nat,
            capacity: self.points_capacity as nat,
        }
    }
}

impl PointCloudUnitree {
    pub open spec fn wf(&self) -> bool {
        cloud_wf(self@)
    }

    /// An empty buffer: no storage, no points, zero metadata. This is what the
    /// driver is handed to fill.
    pub fn new() -> (r: PointCloudUnitree)
        ensures
            r.wf(),
            r@ == (CloudView {
                stamp_bits: 0,
                id: 0,
                ring_num: 0,
                storage: None,
                len: 0,
                capacity: 0,
            }),
    {
        PointCloudUnitree {
            stamp_bits: 0,
            id: 0,
            ring_num: 0,
            storage: None,
            points_len: 0,
            points_capacity: 0,
        }
    }

    /// A buffer as the driver filled it: its metadata, the points of its storage
    /// (`None` where the driver left the storage absent), and the length and
    /// capacity it reported.
    pub fn from_native(
        stamp_bits: u64,
        id: u32,
        ring_num: u32,
        storage: Option<Vec<PointUnitree>>,
        points_len: usize,
        points_capacity: usize,
    ) -> (r: PointCloudUnitree)
        requires
            storage matches Some(s) ==> s@.len() == points_len && points_len <= points_capacity,
        ensures
            r.wf(),
            r@ == (CloudView {
                stamp_bits,
                id,
                ring_num,
                storage: match storage {
                    Some(s) => Some(s@),
                    None => None,
                },
                len: points_len as nat,
                capacity: points_capacity as nat,
            }),
    {
        PointCloudUnitree { stamp_bits, id, ring_num, storage, points_len, points_capacity }
    }

    /// An owned copy of the points, in order; empty where the storage is absent
    /// or the length is zero. The buffer itself is left as it was.
    pub fn points(&self) -> (r: Vec<PointUnitree>)
        requires
            self.wf(),
        ensures
            r@ == snapshot_of(self@),
    {
        let mut result: Vec<PointUnitree> = Vec::new();
        if self.points_len == 0 {
            return result;
        }
        match &self.storage {
            None => result,
            Some(s) => {
                let n = self.points_len;
                let mut i: usize = 0;
                while i < n
                    invariant
                        n == s@.len(),
                        0 <= i <= n,
                        result@ == s@.subrange(0, i as int),
                    decreases n - i,
                {
                    result.push(s[i]);
                    i = i + 1;
                }
                assert(result@ =~= s@);
                result
            },
        }
    }

    /// Gives the buffer up. Returns whether the driver's deallocation routine
    /// must now run on the storage; afterwards no storage is held, so a second
    /// call returns `false` and changes nothing.
    pub fn release(&mut self) -> (must_free: bool)
        requires
            old(self).wf(),
        ensures
            final(self).wf(),
            must_free == old(self)@.storage.is_some(),
            final(self)@ == release_of(old(self)@),
    {
        match self.storage {
            Some(_) => {
                self.storage = None;
                self.points_len = 0;
                self.points_capacity = 0;
                true
            },
            None => false,
        }
    }

    /// Whether the buffer holds driver-owned storage.
    pub fn has_storage(&self) -> (r: bool)
        ensures
            r == self@.storage.is_some(),
    {
        self.storage.is_some()
    }

    /// The number of points the driver reported.
    pub fn len(&self) -> (r: usize)
        ensures
            r == self@.len,
    {
        self.points_len
    }

    /// The capacity the driver reported.
    pub fn capacity(&self) -> (r: usize)
        ensures
            r == self@.capacity,
    {
        self.points_capacity
    }
}

impl Default for PointCloudUnitree {
    fn default() -> (r: PointCloudUnitree)
        ensures
            r.wf(),
            r@.storage.is_none(),
            r@.len == 0,
            r@.capacity == 0,
            r@.stamp_bits == 0,
            r@.id == 0,
            r@.ring_num == 0,
    {
        PointCloudUnitree::new()
    }
}

/// A buffer with absent storage and length zero snapshots to the empty
/// sequence, whatever its other fields hold.
pub proof fn lemma_snapshot_of_empty(v: CloudView)
    requires
        v.storage.is_none(),
        v.len == 0,
    ensures
        snapshot_of(v) == Seq::<PointUnitree>::empty(),
{
}

/// Release is idempotent: releasing a released buffer changes nothing, and a
/// released buffer holds no storage, so the driver's deallocation routine is
/// asked for at most once.
pub proof fn lemma_release_idempotent(v: CloudView)
    requires
        cloud_wf(v),
    ensures
        cloud_wf(release_of(v)),
        release_of(v).storage.is_none(),
        release_of(release_of(v)) == release_of(v),
        snapshot_of(release_of(v)) == Seq::<PointUnitree>::empty(),
{
}

/// Points placed in a buffer's storage come back from a snapshot field for
/// field and in the same order.
pub proof fn lemma_snapshot_round_trip(
    stamp_bits: u64,
    id: u32,
    ring_num: u32,
    pts: Seq<PointUnitree>,
    capacity: nat,
)
    requires
        pts.len() <= capacity,
    ensures
        ({
            let v = CloudView {
                stamp_bits,
                id,
                ring_num,
                storage: Some(pts),
                len: pts.len(),
                capacity,
            };
            cloud_wf(v) && snapshot_of(v) == pts
        }),
{
    if pts.len() == 0 {
        assert(pts =~= Seq::<PointUnitree>::empty());
    }
}

} // verus!
