//! Region-of-interest metadata attached to input pictures. The component
//! copies it during the send call, so it only has to live for that call.
use vstd::prelude::*;

verus! {

/// Tag of a private-data node that carries an ROI map.
pub const ROI_MAP_EVENT: u32 = 2;

/// The largest segment id in `map`, zero for an empty map.
pub open spec fn max_segment(map: Seq<u8>) -> u8
    decreases map.len(),
{
    if map.len() == 0 {
        0
    } else {
        let rest = max_segment(map.drop_last());
        if map.last() > rest {
            map.last()
        } else {
            rest
        }
    }
}

/// From picture `start_picture_number` on, each 64x64 block uses the
/// segment that `b64_seg_map` gives it, and each segment the QP offset in
/// `seg_qp`.
pub struct RoiMapEvent {
    pub start_picture_number: u64,
    pub b64_seg_map: Vec<u8>,
    pub seg_qp: [i16; 8],
    pub max_seg_id: u8,
}

impl RoiMapEvent {
    /// An event whose largest segment id is read off the map.
    pub fn new(start_picture_number: u64, b64_seg_map: Vec<u8>, seg_qp: [i16; 8]) -> (r:
        RoiMapEvent)
        ensures
            r.start_picture_number == start_picture_number,
            r.b64_seg_map@ == b64_seg_map@,
            r.seg_qp@ == seg_qp@,
            r.max_seg_id == max_segment(b64_seg_map@),
    {
        let mut max: u8 = 0;
        let mut i: usize = 0;
        while i < b64_seg_map.len()
            invariant
                i <= b64_seg_map@.len(),
                max == max_segment(b64_seg_map@.subrange(0, i as int)),
            decreases b64_seg_map@.len() - i,
        {
            proof {
                let next = b64_seg_map@.subrange(0, i + 1);
                assert(next.drop_last() =~= b64_seg_map@.subrange(0, i as int));
            }
            if b64_seg_map[i] > max {
                max = b64_seg_map[i];
            }
            i = i + 1;
        }
        assert(b64_seg_map@.subrange(0, i as int) =~= b64_seg_map@);
        RoiMapEvent { start_picture_number, b64_seg_map, seg_qp, max_seg_id: max }
    }
}

/// The list of ROI events attached to one picture, in the order given.
pub struct RoiMap {
    pub events: Vec<RoiMapEvent>,
}

impl RoiMap {
    pub fn new() -> (r: RoiMap)
        ensures
            r.events@.len() == 0,
    {
        RoiMap { events: Vec::new() }
    }

    /// Appends an event after those already listed.
    pub fn push(&mut self, event: RoiMapEvent)
        ensures
            final(self).events@ == old(self).events@.push(event),
    {
        self.events.push(event);
    }

    /// The number of events listed.
    pub fn evt_num(&self) -> (r: usize)
        ensures
            r == self.events@.len(),
    {
        self.events.len()
    }
}

/// Side-channel data attached to an input picture, told apart by its tag.
pub enum PrivData {
    RoiMap(RoiMap),
}

impl PrivData {
    /// The tag the component reads to know what the node carries.
    pub fn node_type(&self) -> (r: u32)
        ensures
            self is RoiMap ==> r == ROI_MAP_EVENT,
    {
        match self {
            PrivData::RoiMap(_) => ROI_MAP_EVENT,
        }
    }
}

} // verus!
