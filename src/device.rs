//! Decode state of a scanning session: the capsule held back for
//! interpolation and the queue of points waiting for the caller.

use crate::answers::{
    le16_at, le32_at, parse_capsule, parse_measurement_node, parse_measurement_node_hq,
    parse_ultra_capsule, DriverError, RplidarResponseCapsuleMeasurementNodes,
    RplidarResponseMeasurementNode, RplidarResponseMeasurementNodeHq,
    RplidarResponseUltraCapsuleMeasurementNodes, CAPSULE_CABINS, CAPSULE_SIZE,
    MEASUREMENT_NODE_HQ_SIZE, MEASUREMENT_NODE_SIZE, ULTRA_CAPSULE_CABINS, ULTRA_CAPSULE_SIZE,
};
use crate::capsule::{
    capsule_point, parse_capsuled, parse_ultra_capsuled, ultra_capsule_point, CachedPrevCapsule,
    CAPSULE_POINTS, ULTRA_CAPSULE_POINTS,
};
use crate::checksum::{check_sync_and_checksum, frame_check};
use crate::cmds::{
    RPLIDAR_ANS_TYPE_MEASUREMENT, RPLIDAR_ANS_TYPE_MEASUREMENT_CAPSULED,
    RPLIDAR_ANS_TYPE_MEASUREMENT_CAPSULED_ULTRA, RPLIDAR_ANS_TYPE_MEASUREMENT_HQ,
};
use crate::types::{point_of_hq, ScanOptions, ScanPoint};
use std::collections::VecDeque;
use vstd::prelude::*;

verus! {

/// A telemetry frame as it came off the wire: its answer type and payload.
#[derive(Debug, Clone)]
pub struct ScanFrame {
    pub cmd: u8,
    pub data: Vec<u8>,
}

/// The point of a legacy node: angle widened from q6 degrees to a q14
/// fraction of a turn, distance kept, quality bits kept in place, sync bit
/// isolated.
pub open spec fn point_of_legacy(n: RplidarResponseMeasurementNode) -> ScanPoint {
    ScanPoint {
        angle_z_q14: ((n.angle_q6_checkbit as int / 2) * 256 / 90) as u16,
        dist_mm_q2: n.distance_q2 as u32,
        quality: (n.sync_quality as int - n.sync_quality as int % 4) as u8,
        flag: (n.sync_quality % 2) as u8,
    }
}

/// Points that a capsule with start angle `cur_start` releases from cache
/// `cache`.
pub open spec fn capsule_points(cache: CachedPrevCapsule, cur_start: u16) -> Seq<ScanPoint> {
    match cache {
        CachedPrevCapsule::Capsuled(prev) => Seq::new(
            CAPSULE_POINTS as nat,
            |i: int| point_of_hq(capsule_point(prev, cur_start, i)),
        ),
        _ => Seq::empty(),
    }
}

/// Points that an ultra capsule with start angle `cur_start` and first word
/// `cur_first` releases from cache `cache`.
pub open spec fn ultra_capsule_points(cache: CachedPrevCapsule, cur_start: u16, cur_first: u32) -> Seq<ScanPoint> {
    match cache {
        CachedPrevCapsule::UltraCapsuled(prev) => Seq::new(
            ULTRA_CAPSULE_POINTS as nat,
            |i: int| point_of_hq(ultra_capsule_point(prev, cur_start, cur_first, i)),
        ),
        _ => Seq::empty(),
    }
}

/// Whether `c` is the capsule that payload `d` encodes.
pub open spec fn capsule_from(c: RplidarResponseCapsuleMeasurementNodes, d: Seq<u8>) -> bool {
    &&& c.wf()
    &&& c.s_checksum_1 == d[0]
    &&& c.s_checksum_2 == d[1]
    &&& c.start_angle_sync_q6 == le16_at(d, 2)
    &&& forall|i: int| 0 <= i < CAPSULE_CABINS ==> #[trigger] c.cabins@[i] == crate::answers::cabin_at(d, 4 + 5 * i)
}

/// Whether `c` is the ultra capsule that payload `d` encodes.
pub open spec fn ultra_capsule_from(c: RplidarResponseUltraCapsuleMeasurementNodes, d: Seq<u8>) -> bool {
    &&& c.wf()
    &&& c.s_checksum_1 == d[0]
    &&& c.s_checksum_2 == d[1]
    &&& c.start_angle_sync_q6 == le16_at(d, 2)
    &&& forall|i: int| 0 <= i < ULTRA_CAPSULE_CABINS ==> #[trigger] c.ultra_cabins@[i] == le32_at(d, 4 + 4 * i)
}

/// Whether a capsule payload passes framing and has a capsule's size.
pub open spec fn capsule_accepted(d: Seq<u8>) -> bool {
    frame_check(d) is Ok && d.len() == CAPSULE_SIZE
}

/// Whether an ultra capsule payload passes framing and has its size.
pub open spec fn ultra_capsule_accepted(d: Seq<u8>) -> bool {
    frame_check(d) is Ok && d.len() == ULTRA_CAPSULE_SIZE
}

/// The legacy node that a payload of the right size encodes.
pub open spec fn legacy_node_at(d: Seq<u8>) -> RplidarResponseMeasurementNode {
    RplidarResponseMeasurementNode { sync_quality: d[0], angle_q6_checkbit: le16_at(d, 1), distance_q2: le16_at(d, 3) }
}

/// The high-resolution node that a payload of the right size encodes.
pub open spec fn hq_node_at(d: Seq<u8>) -> RplidarResponseMeasurementNodeHq {
    RplidarResponseMeasurementNodeHq { angle_z_q14: le16_at(d, 0), dist_mm_q2: le32_at(d, 2), quality: d[6], flag: d[7] }
}

/// The error, if any, with which a telemetry frame is refused.
pub open spec fn scan_data_error(cmd: u8, d: Seq<u8>) -> Option<DriverError> {
    if cmd == RPLIDAR_ANS_TYPE_MEASUREMENT {
        if d.len() == MEASUREMENT_NODE_SIZE { None } else { Some(DriverError::OperationFail) }
    } else if cmd == RPLIDAR_ANS_TYPE_MEASUREMENT_HQ {
        if d.len() == MEASUREMENT_NODE_HQ_SIZE { None } else { Some(DriverError::OperationFail) }
    } else if cmd == RPLIDAR_ANS_TYPE_MEASUREMENT_CAPSULED || cmd == RPLIDAR_ANS_TYPE_MEASUREMENT_CAPSULED_ULTRA {
        None
    } else {
        Some(DriverError::ProtocolError)
    }
}

/// The points that a telemetry frame adds to the queue, given the cache.
pub open spec fn scan_data_points(cache: CachedPrevCapsule, cmd: u8, d: Seq<u8>) -> Seq<ScanPoint> {
    if scan_data_error(cmd, d) is Some {
        Seq::empty()
    } else if cmd == RPLIDAR_ANS_TYPE_MEASUREMENT {
        seq![point_of_legacy(legacy_node_at(d))]
    } else if cmd == RPLIDAR_ANS_TYPE_MEASUREMENT_HQ {
        seq![point_of_hq(hq_node_at(d))]
    } else if cmd == RPLIDAR_ANS_TYPE_MEASUREMENT_CAPSULED {
        if capsule_accepted(d) { capsule_points(cache, le16_at(d, 2)) } else { Seq::empty() }
    } else if ultra_capsule_accepted(d) {
        ultra_capsule_points(cache, le16_at(d, 2), le32_at(d, 4))
    } else {
        Seq::empty()
    }
}

/// The decode state of one driver: capsule cache and point queue.
pub struct DeviceState {
    pub cached_measurement_nodes: VecDeque<ScanPoint>,
    pub cached_prev_capsule: CachedPrevCapsule,
}

impl DeviceState {
    pub open spec fn wf(&self) -> bool {
        self.cached_prev_capsule.wf()
    }

    /// Points waiting for the caller, oldest first.
    pub open spec fn queue(&self) -> Seq<ScanPoint> {
        self.cached_measurement_nodes@
    }

    /// A fresh state: nothing cached, nothing queued.
    pub fn new() -> (r: DeviceState)
        ensures
            r.wf(),
            r.queue().len() == 0,
            r.cached_prev_capsule is Empty,
    {
        DeviceState { cached_measurement_nodes: VecDeque::new(), cached_prev_capsule: CachedPrevCapsule::Empty }
    }

    /// Forgets the cached capsule, as every scan start must.
    pub fn reset_capsule_cache(&mut self)
        ensures
            final(self).wf(),
            final(self).cached_prev_capsule is Empty,
            final(self).queue() == old(self).queue(),
    {
        self.cached_prev_capsule = CachedPrevCapsule::Empty;
    }

    /// Starts a scan session: forgets the cached capsule, so that the next
    /// capsule is the first of the session, and gives the mode that the
    /// options ask for (none where the device's typical mode is to be used).
    pub fn begin_scan(&mut self, options: &ScanOptions) -> (r: Option<u16>)
        ensures
            final(self).wf(),
            final(self).cached_prev_capsule is Empty,
            final(self).queue() == old(self).queue(),
            r == options.scan_mode,
    {
        self.reset_capsule_cache();
        options.scan_mode
    }

    /// Queues the point of a high-resolution node.
    pub fn on_measurement_node_hq(&mut self, node: RplidarResponseMeasurementNodeHq)
        ensures
            final(self).queue() == old(self).queue().push(point_of_hq(node)),
            final(self).cached_prev_capsule == old(self).cached_prev_capsule,
    {
        self.cached_measurement_nodes.push_back(ScanPoint::from(node));
    }

    /// Queues the point of a legacy node.
    pub fn on_measurement_node(&mut self, node: RplidarResponseMeasurementNode)
        ensures
            final(self).queue() == old(self).queue().push(point_of_legacy(node)),
            final(self).cached_prev_capsule == old(self).cached_prev_capsule,
    {
        let angle_z_q14: u16 = (((node.angle_q6_checkbit / 2) as u32) * 256 / 90) as u16;
        self.on_measurement_node_hq(RplidarResponseMeasurementNodeHq {
            angle_z_q14,
            dist_mm_q2: node.distance_q2 as u32,
            flag: node.sync_quality % 2,
            quality: node.sync_quality - node.sync_quality % 4,
        });
    }

    fn push_nodes(&mut self, nodes: &Vec<RplidarResponseMeasurementNodeHq>)
        ensures
            final(self).queue() == old(self).queue() + nodes@.map_values(|n: RplidarResponseMeasurementNodeHq| point_of_hq(n)),
            final(self).cached_prev_capsule == old(self).cached_prev_capsule,
    {
        let mut i: usize = 0;
        while i < nodes.len()
            invariant
                i <= nodes@.len(),
                self.queue() == old(self).queue() + nodes@.subrange(0, i as int).map_values(|n: RplidarResponseMeasurementNodeHq| point_of_hq(n)),
                self.cached_prev_capsule == old(self).cached_prev_capsule,
            decreases nodes@.len() - i,
        {
            self.on_measurement_node_hq(nodes[i]);
            assert(nodes@.subrange(0, i + 1) =~= nodes@.subrange(0, i as int).push(nodes@[i as int]));
            i = i + 1;
        }
        assert(nodes@.subrange(0, i as int) =~= nodes@);
    }

    /// Decodes a capsule against the cache, queues what it releases, and
    /// caches it.
    pub fn on_measurement_capsuled(&mut self, nodes: RplidarResponseCapsuleMeasurementNodes)
        requires
            old(self).wf(),
            nodes.wf(),
        ensures
            final(self).wf(),
            final(self).queue() == old(self).queue() + capsule_points(old(self).cached_prev_capsule, nodes.start_angle_sync_q6),
            final(self).cached_prev_capsule == CachedPrevCapsule::Capsuled(nodes),
    {
        let ghost start = nodes.start_angle_sync_q6;
        let (parsed, new_cache) = parse_capsuled(&self.cached_prev_capsule, nodes);
        let ghost prev_cache = self.cached_prev_capsule;
        self.cached_prev_capsule = new_cache;
        self.push_nodes(&parsed);
        assert(parsed@.map_values(|n: RplidarResponseMeasurementNodeHq| point_of_hq(n)) =~= capsule_points(prev_cache, start));
    }

    /// Decodes an ultra capsule against the cache, queues what it releases,
    /// and caches it.
    pub fn on_measurement_ultra_capsuled(&mut self, nodes: RplidarResponseUltraCapsuleMeasurementNodes)
        requires
            old(self).wf(),
            nodes.wf(),
        ensures
            final(self).wf(),
            final(self).queue() == old(self).queue() + ultra_capsule_points(
                old(self).cached_prev_capsule,
                nodes.start_angle_sync_q6,
                nodes.ultra_cabins@[0],
            ),
            final(self).cached_prev_capsule == CachedPrevCapsule::UltraCapsuled(nodes),
    {
        let ghost start = nodes.start_angle_sync_q6;
        let ghost first = nodes.ultra_cabins@[0];
        let (parsed, new_cache) = parse_ultra_capsuled(&self.cached_prev_capsule, nodes);
        let ghost prev_cache = self.cached_prev_capsule;
        self.cached_prev_capsule = new_cache;
        self.push_nodes(&parsed);
        assert(parsed@.map_values(|n: RplidarResponseMeasurementNodeHq| point_of_hq(n)) =~= ultra_capsule_points(prev_cache, start, first));
    }

    /// Validates a capsule payload and decodes it. A payload that fails
    /// framing is refused with its error and changes nothing; one of the
    /// wrong size likewise, with `OperationFail`.
    pub fn on_measurement_capsuled_msg(&mut self, data: &[u8]) -> (r: Result<(), DriverError>)
        requires
            old(self).wf(),
        ensures
            final(self).wf(),
            r is Ok <==> capsule_accepted(data@),
            frame_check(data@) is Err ==> r == Err::<(), DriverError>(DriverError::ProtocolError),
            frame_check(data@) is Ok && data@.len() != CAPSULE_SIZE ==> r == Err::<(), DriverError>(DriverError::OperationFail),
            r is Err ==> final(self).queue() == old(self).queue()
                && final(self).cached_prev_capsule == old(self).cached_prev_capsule,
            r is Ok ==> final(self).queue() == old(self).queue() + capsule_points(old(self).cached_prev_capsule, le16_at(data@, 2)),
            r is Ok ==> (final(self).cached_prev_capsule matches CachedPrevCapsule::Capsuled(c) && capsule_from(c, data@)),
    {
        if check_sync_and_checksum(data).is_err() {
            return Err(DriverError::ProtocolError);
        }
        let nodes = parse_capsule(data)?;
        self.on_measurement_capsuled(nodes);
        Ok(())
    }

    /// Validates an ultra capsule payload and decodes it, refusing it as
    /// `on_measurement_capsuled_msg` refuses a capsule.
    pub fn on_measurement_ultra_capsuled_msg(&mut self, data: &[u8]) -> (r: Result<(), DriverError>)
        requires
            old(self).wf(),
        ensures
            final(self).wf(),
            r is Ok <==> ultra_capsule_accepted(data@),
            frame_check(data@) is Err ==> r == Err::<(), DriverError>(DriverError::ProtocolError),
            frame_check(data@) is Ok && data@.len() != ULTRA_CAPSULE_SIZE ==> r == Err::<(), DriverError>(DriverError::OperationFail),
            r is Err ==> final(self).queue() == old(self).queue()
                && final(self).cached_prev_capsule == old(self).cached_prev_capsule,
            r is Ok ==> final(self).queue() == old(self).queue() + ultra_capsule_points(
                old(self).cached_prev_capsule,
                le16_at(data@, 2),
                le32_at(data@, 4),
            ),
            r is Ok ==> (final(self).cached_prev_capsule matches CachedPrevCapsule::UltraCapsuled(c) && ultra_capsule_from(c, data@)),
    {
        if check_sync_and_checksum(data).is_err() {
            return Err(DriverError::ProtocolError);
        }
        let nodes = parse_ultra_capsule(data)?;
        self.on_measurement_ultra_capsuled(nodes);
        Ok(())
    }

    /// Takes in one telemetry frame. Legacy and high-resolution nodes are
    /// queued, or refused with `OperationFail` where the payload has the
    /// wrong size. Capsules go through the capsule decoder; one that fails
    /// validation is dropped without an error and leaves the cache as it
    /// was. Any other answer type is a `ProtocolError`.
    pub fn on_scan_data(&mut self, cmd: u8, data: &[u8]) -> (r: Result<(), DriverError>)
        requires
            old(self).wf(),
        ensures
            final(self).wf(),
            r is Err <==> scan_data_error(cmd, data@) is Some,
            r is Err ==> r->Err_0 == scan_data_error(cmd, data@)->Some_0,
            final(self).queue() == old(self).queue() + scan_data_points(old(self).cached_prev_capsule, cmd, data@),
            cmd == RPLIDAR_ANS_TYPE_MEASUREMENT_CAPSULED && capsule_accepted(data@) ==> (
                final(self).cached_prev_capsule matches CachedPrevCapsule::Capsuled(c) && capsule_from(c, data@)),
            cmd == RPLIDAR_ANS_TYPE_MEASUREMENT_CAPSULED_ULTRA && ultra_capsule_accepted(data@) ==> (
                final(self).cached_prev_capsule matches CachedPrevCapsule::UltraCapsuled(c) && ultra_capsule_from(c, data@)),
            !(cmd == RPLIDAR_ANS_TYPE_MEASUREMENT_CAPSULED && capsule_accepted(data@))
                && !(cmd == RPLIDAR_ANS_TYPE_MEASUREMENT_CAPSULED_ULTRA && ultra_capsule_accepted(data@))
                ==> final(self).cached_prev_capsule == old(self).cached_prev_capsule,
    {
        if cmd == RPLIDAR_ANS_TYPE_MEASUREMENT {
            let node = parse_measurement_node(data)?;
            self.on_measurement_node(node);
            Ok(())
        } else if cmd == RPLIDAR_ANS_TYPE_MEASUREMENT_HQ {
            let node = parse_measurement_node_hq(data)?;
            self.on_measurement_node_hq(node);
            Ok(())
        } else if cmd == RPLIDAR_ANS_TYPE_MEASUREMENT_CAPSULED {
            let _ = self.on_measurement_capsuled_msg(data);
            Ok(())
        } else if cmd == RPLIDAR_ANS_TYPE_MEASUREMENT_CAPSULED_ULTRA {
            let _ = self.on_measurement_ultra_capsuled_msg(data);
            Ok(())
        } else {
            Err(DriverError::ProtocolError)
        }
    }

    /// Takes the oldest queued point, if any.
    pub fn grab_cached_point(&mut self) -> (r: Option<ScanPoint>)
        ensures
            final(self).cached_prev_capsule == old(self).cached_prev_capsule,
            old(self).queue().len() == 0 ==> r is None && final(self).queue() == old(self).queue(),
            old(self).queue().len() > 0 ==> r == Some(old(self).queue()[0])
                && final(self).queue() == old(self).queue().drop_first(),
    {
        self.cached_measurement_nodes.pop_front()
    }

    /// Serves a point: the oldest queued one, with no frame taken in; with
    /// the queue empty, takes in `incoming` (the frame that arrived while
    /// waiting, or none) and then serves the oldest point, failing with
    /// `OperationTimeout` where there is still none.
    pub fn grab_scan_point_with_frame(&mut self, incoming: Option<ScanFrame>) -> (r: Result<ScanPoint, DriverError>)
        requires
            old(self).wf(),
        ensures
            final(self).wf(),
            old(self).queue().len() > 0 || incoming is None ==> (r, final(self).queue()) == serve_step(old(self).queue())
                && final(self).cached_prev_capsule == old(self).cached_prev_capsule,
            served(r) + final(self).queue() == old(self).queue() + grab_fresh_points(
                old(self).queue(),
                old(self).cached_prev_capsule,
                incoming,
            ),
            old(self).queue().len() == 0 && incoming is Some ==> ({
                let f = incoming->Some_0;
                let fresh = scan_data_points(old(self).cached_prev_capsule, f.cmd, f.data@);
                if scan_data_error(f.cmd, f.data@) is Some {
                    r == Err::<ScanPoint, DriverError>(scan_data_error(f.cmd, f.data@)->Some_0)
                        && final(self).queue() == old(self).queue()
                        && final(self).cached_prev_capsule == old(self).cached_prev_capsule
                } else if fresh.len() == 0 {
                    r == Err::<ScanPoint, DriverError>(DriverError::OperationTimeout)
                        && final(self).queue().len() == 0
                } else {
                    r == Ok::<ScanPoint, DriverError>(fresh[0]) && final(self).queue() == fresh.drop_first()
                }
            }),
    {
        if let Some(p) = self.grab_cached_point() {
            return Ok(p);
        }
        if let Some(frame) = incoming {
            self.on_scan_data(frame.cmd, frame.data.as_slice())?;
        }
        match self.grab_cached_point() {
            Some(p) => Ok(p),
            None => Err(DriverError::OperationTimeout),
        }
    }
}

/// What a serving hands out: its point, or nothing where it failed.
pub open spec fn served(r: Result<ScanPoint, DriverError>) -> Seq<ScanPoint> {
    match r {
        Ok(p) => seq![p],
        Err(_) => Seq::empty(),
    }
}

/// Points that a serving from queue `q` with cache `cache` decodes from
/// `incoming`: a frame is taken in only when the queue is empty.
pub open spec fn grab_fresh_points(q: Seq<ScanPoint>, cache: CachedPrevCapsule, incoming: Option<ScanFrame>) -> Seq<ScanPoint> {
    match incoming {
        Some(f) => if q.len() == 0 { scan_data_points(cache, f.cmd, f.data@) } else { Seq::empty() },
        None => Seq::empty(),
    }
}

/// All points of a list of point lists, in order.
pub open spec fn flatten_points(s: Seq<Seq<ScanPoint>>) -> Seq<ScanPoint>
    decreases s.len(),
{
    if s.len() == 0 {
        Seq::empty()
    } else {
        flatten_points(s.drop_last()) + s.last()
    }
}

/// Over any run of servings, each handing out `served[i]` and leaving
/// queue `queues[i + 1]` behind, from queue `queues[i]` plus the points
/// `fresh[i]` decoded from the frame it took in: everything handed out, then
/// what is still queued, is the first queue followed by all decoded points
/// in the order of the frames. No point is dropped, repeated or reordered.
pub proof fn lemma_frames_served_in_order(
    queues: Seq<Seq<ScanPoint>>,
    served: Seq<Seq<ScanPoint>>,
    fresh: Seq<Seq<ScanPoint>>,
)
    requires
        queues.len() == served.len() + 1,
        fresh.len() == served.len(),
        forall|i: int| 0 <= i < served.len() ==> #[trigger] served[i] + queues[i + 1] == queues[i] + fresh[i],
    ensures
        flatten_points(served) + queues.last() == queues[0] + flatten_points(fresh),
    decreases served.len(),
{
    if served.len() == 0 {
        assert(flatten_points(served) + queues.last() =~= queues[0] + flatten_points(fresh));
    } else {
        let n = served.len() - 1;
        let q2 = queues.drop_last();
        let s2 = served.drop_last();
        let f2 = fresh.drop_last();
        assert forall|i: int| 0 <= i < s2.len() implies #[trigger] s2[i] + q2[i + 1] == q2[i] + f2[i] by {
            assert(served[i] + queues[i + 1] == queues[i] + fresh[i]);
        }
        lemma_frames_served_in_order(q2, s2, f2);
        assert(served[n] + queues[n + 1] == queues[n] + fresh[n]);
        let a = flatten_points(s2);
        assert(flatten_points(served) == a + served[n]);
        assert(queues.last() == queues[n + 1]);
        assert(q2.last() == queues[n]);
        assert((a + served[n]) + queues[n + 1] =~= a + (served[n] + queues[n + 1]));
        assert(a + (queues[n] + fresh[n]) =~= (a + queues[n]) + fresh[n]);
        assert(flatten_points(served) + queues.last() == (flatten_points(s2) + q2.last()) + fresh[n]);
        assert(flatten_points(fresh) == flatten_points(f2) + fresh[n]);
        assert(flatten_points(served) + queues.last() =~= queues[0] + flatten_points(fresh));
    }
}

/// One serving of a point from queue `q` with no frame coming in: the
/// result and the queue left behind.
pub open spec fn serve_step(q: Seq<ScanPoint>) -> (Result<ScanPoint, DriverError>, Seq<ScanPoint>) {
    if q.len() == 0 {
        (Err(DriverError::OperationTimeout), q)
    } else {
        (Ok(q[0]), q.drop_first())
    }
}

/// Results of `k` servings in a row from queue `q`.
pub open spec fn serve_run(q: Seq<ScanPoint>, k: nat) -> Seq<Result<ScanPoint, DriverError>>
    decreases k,
{
    if k == 0 {
        Seq::empty()
    } else {
        seq![serve_step(q).0] + serve_run(serve_step(q).1, (k - 1) as nat)
    }
}

/// Served one at a time, the queued points come out in the order they were
/// decoded, each once, and the serving after the last fails with
/// `OperationTimeout`.
pub proof fn lemma_points_served_in_order(q: Seq<ScanPoint>)
    ensures
        serve_run(q, q.len() + 1) == q.map_values(|p: ScanPoint| Ok::<ScanPoint, DriverError>(p))
            + seq![Err::<ScanPoint, DriverError>(DriverError::OperationTimeout)],
    decreases q.len(),
{
    if q.len() == 0 {
        assert(serve_run(serve_step(q).1, 0) =~= Seq::<Result<ScanPoint, DriverError>>::empty());
        assert(serve_run(q, 1) =~= seq![Err::<ScanPoint, DriverError>(DriverError::OperationTimeout)]);
        assert(q.map_values(|p: ScanPoint| Ok::<ScanPoint, DriverError>(p)) =~= Seq::empty());
    } else {
        lemma_points_served_in_order(q.drop_first());
        assert(serve_run(q, q.len() + 1) == seq![Ok::<ScanPoint, DriverError>(q[0])] + serve_run(q.drop_first(), q.len() as nat));
        assert(q.map_values(|p: ScanPoint| Ok::<ScanPoint, DriverError>(p)) =~= seq![Ok::<ScanPoint, DriverError>(q[0])]
            + q.drop_first().map_values(|p: ScanPoint| Ok::<ScanPoint, DriverError>(p)));
        assert(serve_run(q, q.len() + 1) =~= q.map_values(|p: ScanPoint| Ok::<ScanPoint, DriverError>(p))
            + seq![Err::<ScanPoint, DriverError>(DriverError::OperationTimeout)]);
    }
}

/// With no capsule cached (a fresh session, or just after the cache was
/// reset at a scan start), a capsule or ultra capsule frame releases no
/// points; the capsule it caches releases its points, one capsule's worth,
/// when the next capsule of its kind arrives.
pub proof fn lemma_first_capsule_held_back(d: Seq<u8>, prev: CachedPrevCapsule)
    ensures
        scan_data_points(CachedPrevCapsule::Empty, RPLIDAR_ANS_TYPE_MEASUREMENT_CAPSULED, d).len() == 0,
        scan_data_points(CachedPrevCapsule::Empty, RPLIDAR_ANS_TYPE_MEASUREMENT_CAPSULED_ULTRA, d).len() == 0,
        prev is Capsuled && capsule_accepted(d) ==> scan_data_points(prev, RPLIDAR_ANS_TYPE_MEASUREMENT_CAPSULED, d).len()
            == CAPSULE_POINTS,
        prev is UltraCapsuled && ultra_capsule_accepted(d) ==> scan_data_points(
            prev,
            RPLIDAR_ANS_TYPE_MEASUREMENT_CAPSULED_ULTRA,
            d,
        ).len() == ULTRA_CAPSULE_POINTS,
{
}

/// Once the cache is reset, as `begin_scan` does at every scan start, the next capsule frame of
/// either kind is the first of a session: it releases no points, whatever
/// had been cached before.
pub proof fn lemma_scan_start_resets_decoding(after: DeviceState, cmd: u8, d: Seq<u8>)
    requires
        after.cached_prev_capsule is Empty,
        cmd == RPLIDAR_ANS_TYPE_MEASUREMENT_CAPSULED || cmd == RPLIDAR_ANS_TYPE_MEASUREMENT_CAPSULED_ULTRA,
    ensures
        scan_data_points(after.cached_prev_capsule, cmd, d).len() == 0,
{
}

/// Points released, and the cache left, when capsules `caps` arrive one
/// after another on a fresh cache.
pub open spec fn capsule_run(caps: Seq<RplidarResponseCapsuleMeasurementNodes>) -> (Seq<ScanPoint>, CachedPrevCapsule)
    decreases caps.len(),
{
    if caps.len() == 0 {
        (Seq::empty(), CachedPrevCapsule::Empty)
    } else {
        let before = capsule_run(caps.drop_last());
        (before.0 + capsule_points(before.1, caps.last().start_angle_sync_q6), CachedPrevCapsule::Capsuled(caps.last()))
    }
}

/// Over a session of `n >= 1` capsules from a fresh cache, the points of
/// each capsule but the last come out exactly once, in arrival order and
/// interpolated towards the capsule after it, while the last capsule is
/// held in the cache: one capsule of latency per session.
pub proof fn lemma_capsule_session_latency(caps: Seq<RplidarResponseCapsuleMeasurementNodes>)
    requires
        caps.len() >= 1,
    ensures
        capsule_run(caps).0.len() == (caps.len() - 1) * CAPSULE_POINTS,
        capsule_run(caps).1 == CachedPrevCapsule::Capsuled(caps.last()),
        forall|k: int, j: int| 0 <= k < caps.len() - 1 && 0 <= j < CAPSULE_POINTS ==>
            #[trigger] capsule_run(caps).0[k * 32 + j] == point_of_hq(capsule_point(caps[k], caps[k + 1].start_angle_sync_q6, j)),
    decreases caps.len(),
{
    let n = caps.len();
    if n == 1 {
        let before = capsule_run(caps.drop_last());
        assert(before.1 is Empty);
        assert(capsule_run(caps).0 =~= Seq::<ScanPoint>::empty());
    } else {
        let prev = caps.drop_last();
        lemma_capsule_session_latency(prev);
        let before = capsule_run(prev);
        assert(before.1 == CachedPrevCapsule::Capsuled(caps[n - 2]));
        let add = capsule_points(before.1, caps.last().start_angle_sync_q6);
        assert(add.len() == 32);
        let all = capsule_run(caps).0;
        assert(all == before.0 + add);
        assert(before.0.len() == (n - 2) * 32);
        assert(all.len() == (n - 1) * 32) by (nonlinear_arith)
            requires all.len() == before.0.len() + 32, before.0.len() == (n - 2) * 32;
        assert forall|k: int, j: int| 0 <= k < n - 1 && 0 <= j < CAPSULE_POINTS implies
            #[trigger] all[k * 32 + j] == point_of_hq(capsule_point(caps[k], caps[k + 1].start_angle_sync_q6, j)) by {
            if k < n - 2 {
                assert(k * 32 + j < (n - 2) * 32) by (nonlinear_arith)
                    requires k < n - 2, 0 <= j < 32;
                assert(0 <= k * 32 + j) by (nonlinear_arith)
                    requires 0 <= k, 0 <= j;
                assert(prev[k] == caps[k] && prev[k + 1] == caps[k + 1]);
                assert(before.0[k * 32 + j] == point_of_hq(capsule_point(prev[k], prev[k + 1].start_angle_sync_q6, j)));
            } else {
                assert(k * 32 + j == (n - 2) * 32 + j);
                assert(caps[k + 1] == caps.last());
            }
        }
    }
}

} // verus!
