//! Capsule decoding: the points of a capsule get their angles by
//! interpolating between its start angle and that of the capsule after it.

use crate::answers::{
    RplidarResponseCabinNodes, RplidarResponseCapsuleMeasurementNodes,
    RplidarResponseMeasurementNodeHq, RplidarResponseUltraCapsuleMeasurementNodes, CAPSULE_CABINS,
    ULTRA_CAPSULE_CABINS,
};
use vstd::prelude::*;

verus! {

/// One full turn in degrees, as q8, q16 and q6 fixed point.
pub const FULL_TURN_Q8: u64 = 92160;
pub const FULL_TURN_Q16: u64 = 23592960;
pub const FULL_TURN_Q6: u64 = 23040;

/// Quality given to a decoded point with a nonzero distance.
pub const CAPSULE_QUALITY: u8 = 188;

/// Points carried by one capsule and by one ultra capsule.
pub const CAPSULE_POINTS: usize = 32;
pub const ULTRA_CAPSULE_POINTS: usize = 96;

/// The capsule kept back until the next one gives its end angle.
#[derive(Debug, Clone)]
pub enum CachedPrevCapsule {
    Empty,
    Capsuled(RplidarResponseCapsuleMeasurementNodes),
    UltraCapsuled(RplidarResponseUltraCapsuleMeasurementNodes),
}

impl CachedPrevCapsule {
    pub open spec fn wf(&self) -> bool {
        match self {
            CachedPrevCapsule::Empty => true,
            CachedPrevCapsule::Capsuled(c) => c.wf(),
            CachedPrevCapsule::UltraCapsuled(c) => c.wf(),
        }
    }
}

/// Start angle of a capsule in q8 degrees (the sync bit masked off).
pub open spec fn start_angle_q8(raw: u16) -> int {
    (raw as int % 32768) * 4
}

/// Angle from one start angle to the next. Where the second is numerically
/// below the first, the turn wrapped between them: the span is taken modulo
/// one full turn, which for start angles under one turn is the second plus
/// one full turn, minus the first.
pub open spec fn angle_span_q8(prev: u16, cur: u16) -> int {
    let p = start_angle_q8(prev);
    let c = start_angle_q8(cur);
    if p > c {
        (c - p) % (FULL_TURN_Q8 as int)
    } else {
        c - p
    }
}

/// Node of a point at interpolated angle `raw_q16`, with the angle step
/// `inc_q16` to the next point, refinement `offset_q3` subtracted, and
/// distance `dist_q2`. The sync flag marks the point after which the turn
/// wraps.
pub open spec fn interpolated_node(raw_q16: int, inc_q16: int, offset_q3: int, dist_q2: u32) -> RplidarResponseMeasurementNodeHq {
    let angle_q6 = ((raw_q16 + FULL_TURN_Q16 - offset_q3 * 8192) / 1024) % (FULL_TURN_Q6 as int);
    let sync = (raw_q16 + inc_q16) % (FULL_TURN_Q16 as int) < inc_q16;
    RplidarResponseMeasurementNodeHq {
        angle_z_q14: (angle_q6 * 256 / 90) as u16,
        dist_mm_q2: dist_q2,
        quality: if dist_q2 != 0 { CAPSULE_QUALITY } else { 0 },
        flag: if sync { 1 } else { 2 },
    }
}

/// Angle refinement of point `second` (0 or 1) of a cabin, in q3 degrees.
pub open spec fn cabin_offset_q3(c: RplidarResponseCabinNodes, second: bool) -> int {
    if second {
        (c.offset_angles_q3 as int / 16) + (c.distance_angle_2 as int % 4) * 16
    } else {
        (c.offset_angles_q3 as int % 16) + (c.distance_angle_1 as int % 4) * 16
    }
}

/// Distance of point `second` of a cabin, in q2 millimeters.
pub open spec fn cabin_dist_q2(c: RplidarResponseCabinNodes, second: bool) -> u32 {
    let d = if second { c.distance_angle_2 } else { c.distance_angle_1 };
    (d as int - d as int % 4) as u32
}

/// Point `i` of capsule `prev`, given the start angle `cur` of the capsule
/// that followed it.
pub open spec fn capsule_point(prev: RplidarResponseCapsuleMeasurementNodes, cur: u16, i: int) -> RplidarResponseMeasurementNodeHq {
    let inc = angle_span_q8(prev.start_angle_sync_q6, cur) * 8;
    let raw = start_angle_q8(prev.start_angle_sync_q6) * 256 + i * inc;
    let cabin = prev.cabins@[i / 2];
    let second = i % 2 == 1;
    interpolated_node(raw, inc, cabin_offset_q3(cabin, second), cabin_dist_q2(cabin, second))
}

fn interpolated_node_exec(raw_q16: u64, inc_q16: u64, offset_q3: u64, dist_q2: u32) -> (r: RplidarResponseMeasurementNodeHq)
    requires
        raw_q16 < 0x1_0000_0000,
        inc_q16 < 0x1_0000_0000,
        offset_q3 < 64,
    ensures
        r == interpolated_node(raw_q16 as int, inc_q16 as int, offset_q3 as int, dist_q2),
{
    let angle_q6: u64 = ((raw_q16 + FULL_TURN_Q16 - offset_q3 * 8192) / 1024) % FULL_TURN_Q6;
    assert(angle_q6 * 256 / 90 < 65536) by (nonlinear_arith)
        requires angle_q6 < 23040;
    let sync: bool = (raw_q16 + inc_q16) % FULL_TURN_Q16 < inc_q16;
    RplidarResponseMeasurementNodeHq {
        angle_z_q14: (angle_q6 * 256 / 90) as u16,
        dist_mm_q2: dist_q2,
        quality: if dist_q2 != 0 { CAPSULE_QUALITY } else { 0 },
        flag: if sync { 1 } else { 2 },
    }
}

fn start_angle_q8_exec(raw: u16) -> (r: u64)
    ensures
        r == start_angle_q8(raw),
        r <= 131068,
{
    (raw as u64 % 32768) * 4
}

fn angle_span_q8_exec(prev: u16, cur: u16) -> (r: u64)
    ensures
        r == angle_span_q8(prev, cur),
        r <= 131068,
{
    let p = start_angle_q8_exec(prev);
    let c = start_angle_q8_exec(cur);
    if p > c {
        assert((c + 2 * FULL_TURN_Q8 - p) as int % (FULL_TURN_Q8 as int) == (c - p) % (FULL_TURN_Q8 as int)) by (nonlinear_arith)
            requires p > c, p <= 131068;
        (c + 2 * FULL_TURN_Q8 - p) % FULL_TURN_Q8
    } else {
        c - p
    }
}

/// Decodes capsule `nodes` against the cached one. With a capsule cached,
/// its points come out, their angles spread over the span up to the start
/// of `nodes`; with none, nothing comes out. Either way `nodes` is cached.
pub fn parse_capsuled(cached_prev: &CachedPrevCapsule, nodes: RplidarResponseCapsuleMeasurementNodes) -> (r: (Vec<RplidarResponseMeasurementNodeHq>, CachedPrevCapsule))
    requires
        cached_prev.wf(),
        nodes.wf(),
    ensures
        r.1 == CachedPrevCapsule::Capsuled(nodes),
        match cached_prev {
            CachedPrevCapsule::Capsuled(prev) => {
                &&& r.0@.len() == CAPSULE_POINTS
                &&& forall|i: int| 0 <= i < CAPSULE_POINTS ==> #[trigger] r.0@[i] == capsule_point(*prev, nodes.start_angle_sync_q6, i)
            },
            _ => r.0@.len() == 0,
        },
{
    let mut out: Vec<RplidarResponseMeasurementNodeHq> = Vec::new();
    match cached_prev {
        CachedPrevCapsule::Capsuled(prev) => {
            let span = angle_span_q8_exec(prev.start_angle_sync_q6, nodes.start_angle_sync_q6);
            let inc: u64 = span * 8;
            let base: u64 = start_angle_q8_exec(prev.start_angle_sync_q6) * 256;
            let mut raw: u64 = base;
            let mut pos: usize = 0;
            while pos < CAPSULE_CABINS
                invariant
                    pos <= CAPSULE_CABINS,
                    prev.wf(),
                    inc == angle_span_q8(prev.start_angle_sync_q6, nodes.start_angle_sync_q6) * 8,
                    inc <= 1048544,
                    base == start_angle_q8(prev.start_angle_sync_q6) * 256,
                    base <= 131068 * 256,
                    raw == base + 2 * pos * inc,
                    out@.len() == 2 * pos,
                    forall|i: int| 0 <= i < 2 * pos ==> #[trigger] out@[i] == capsule_point(*prev, nodes.start_angle_sync_q6, i),
                decreases CAPSULE_CABINS - pos,
            {
                let cabin = prev.cabins[pos];
                proof {
                    assert(2 * pos * inc <= 32 * 1048544) by (nonlinear_arith)
                        requires pos < 16, inc <= 1048544;
                    assert(raw + inc == base + (2 * pos + 1) * inc) by (nonlinear_arith)
                        requires raw == base + 2 * pos * inc;
                    assert((2 * pos + 1) * inc <= 32 * 1048544) by (nonlinear_arith)
                        requires pos < 16, inc <= 1048544;
                }
                let off1: u64 = (cabin.offset_angles_q3 as u64 % 16) + (cabin.distance_angle_1 as u64 % 4) * 16;
                let dist1: u32 = (cabin.distance_angle_1 - cabin.distance_angle_1 % 4) as u32;
                let n1 = interpolated_node_exec(raw, inc, off1, dist1);
                raw = raw + inc;
                let off2: u64 = (cabin.offset_angles_q3 as u64 / 16) + (cabin.distance_angle_2 as u64 % 4) * 16;
                let dist2: u32 = (cabin.distance_angle_2 - cabin.distance_angle_2 % 4) as u32;
                let n2 = interpolated_node_exec(raw, inc, off2, dist2);
                raw = raw + inc;
                proof {
                    assert(raw == base + 2 * (pos + 1) * inc) by (nonlinear_arith)
                        requires raw == base + (2 * pos + 1) * inc + inc;
                }
                out.push(n1);
                out.push(n2);
                proof {
                    let i0 = 2 * pos as int;
                    assert(i0 / 2 == pos as int && i0 % 2 == 0);
                    assert((i0 + 1) / 2 == pos as int && (i0 + 1) % 2 == 1);
                    assert(out@[i0] == capsule_point(*prev, nodes.start_angle_sync_q6, i0));
                    assert(out@[i0 + 1] == capsule_point(*prev, nodes.start_angle_sync_q6, i0 + 1));
                }
                pos = pos + 1;
            }
        },
        _ => {},
    }
    (out, CachedPrevCapsule::Capsuled(nodes))
}

/// For start angles under one full turn, the span from one capsule to the
/// next is never negative and stays under one turn; where the second start
/// angle is numerically below the first, it is the second plus one full
/// turn, minus the first.
pub proof fn lemma_span_wraps(prev: u16, cur: u16)
    requires
        start_angle_q8(prev) < FULL_TURN_Q8,
        start_angle_q8(cur) < FULL_TURN_Q8,
    ensures
        0 <= angle_span_q8(prev, cur) < FULL_TURN_Q8,
        start_angle_q8(cur) < start_angle_q8(prev) ==> angle_span_q8(prev, cur)
            == start_angle_q8(cur) + FULL_TURN_Q8 - start_angle_q8(prev),
        start_angle_q8(cur) >= start_angle_q8(prev) ==> angle_span_q8(prev, cur)
            == start_angle_q8(cur) - start_angle_q8(prev),
{
    let p = start_angle_q8(prev);
    let c = start_angle_q8(cur);
    if p > c {
        let f = FULL_TURN_Q8 as int;
        assert((c - p) % f == c + f - p) by (nonlinear_arith)
            requires p > c, 0 <= c, p < f, f == 92160;
    }
}

/// Coarse angle, in q16 degrees and before the refinement offset, of point
/// `i` of a capsule starting at `prev` and followed by one starting at `cur`.
pub open spec fn coarse_angle_q16(prev: u16, cur: u16, i: int) -> int {
    start_angle_q8(prev) * 256 + i * (angle_span_q8(prev, cur) * 8)
}

/// For start angles under one full turn, the coarse angles of a capsule's
/// points never go down with the point's position, all lie within the span
/// from its start angle to the next capsule's, and any two differ by less
/// than one full turn: reduced modulo a turn, they wrap from 360 to 0 at
/// most once.
pub proof fn lemma_coarse_angles_monotone(prev: u16, cur: u16, i: int, j: int)
    requires
        start_angle_q8(prev) < FULL_TURN_Q8,
        start_angle_q8(cur) < FULL_TURN_Q8,
        0 <= i <= j < CAPSULE_POINTS,
    ensures
        coarse_angle_q16(prev, cur, i) <= coarse_angle_q16(prev, cur, j),
        start_angle_q8(prev) * 256 <= coarse_angle_q16(prev, cur, i),
        angle_span_q8(prev, cur) > 0 ==> coarse_angle_q16(prev, cur, j) < start_angle_q8(prev) * 256
            + angle_span_q8(prev, cur) * 256,
        coarse_angle_q16(prev, cur, j) - coarse_angle_q16(prev, cur, i) < FULL_TURN_Q16,
{
    lemma_span_wraps(prev, cur);
    let inc = angle_span_q8(prev, cur) * 8;
    assert(i * inc <= j * inc) by (nonlinear_arith)
        requires 0 <= i <= j, inc >= 0;
    assert(0 <= i * inc) by (nonlinear_arith)
        requires 0 <= i, inc >= 0;
    assert(inc > 0 ==> j * inc < 32 * inc) by (nonlinear_arith)
        requires 0 <= j < 32;
    assert(j * inc - i * inc <= 32 * inc) by (nonlinear_arith)
        requires 0 <= i <= j < 32, inc >= 0;
}

/// Point `i` of the 32 points of a capsule lies at the capsule's start angle
/// plus `i / 32` of the span to the next capsule, minus the point's own
/// refinement offset, modulo one full turn (all in q16 degrees, the angle
/// then brought to q6 and given as a fraction of a turn in q14).
pub proof fn lemma_capsule_point_angle(prev: RplidarResponseCapsuleMeasurementNodes, cur: u16, i: int)
    requires
        prev.wf(),
        0 <= i < CAPSULE_POINTS,
    ensures
        ({
            let span_q16 = angle_span_q8(prev.start_angle_sync_q6, cur) * 256;
            let start_q16 = start_angle_q8(prev.start_angle_sync_q6) * 256;
            let off_q16 = cabin_offset_q3(prev.cabins@[i / 2], i % 2 == 1) * 8192;
            let angle_q6 = ((start_q16 + i * span_q16 / 32 - off_q16) / 1024) % (FULL_TURN_Q6 as int);
            capsule_point(prev, cur, i).angle_z_q14 == (angle_q6 * 256 / 90) as u16
        }),
{
    let span = angle_span_q8(prev.start_angle_sync_q6, cur);
    let start_q16 = start_angle_q8(prev.start_angle_sync_q6) * 256;
    let off_q16 = cabin_offset_q3(prev.cabins@[i / 2], i % 2 == 1) * 8192;
    assert(i * (span * 256) / 32 == i * (span * 8)) by (nonlinear_arith);
    let x = start_q16 + i * (span * 8) - off_q16;
    assert((x + 23592960) / 1024 % 23040 == (x / 1024) % 23040) by (nonlinear_arith);
}

/// Base value of a variable-bit-scaled 12-bit distance code.
pub open spec fn varbit_base(code: int) -> int {
    if code >= 3328 {
        16384
    } else if code >= 1792 {
        4096
    } else if code >= 1280 {
        2048
    } else if code >= 512 {
        512
    } else {
        0
    }
}

/// Code at which the scale of `code` begins.
pub open spec fn varbit_code_base(code: int) -> int {
    if code >= 3328 {
        3328
    } else if code >= 1792 {
        1792
    } else if code >= 1280 {
        1280
    } else if code >= 512 {
        512
    } else {
        0
    }
}

/// Step between neighbouring distances at the scale of `code`.
pub open spec fn varbit_scale(code: int) -> int {
    if code >= 3328 {
        16
    } else if code >= 1792 {
        8
    } else if code >= 1280 {
        4
    } else if code >= 512 {
        2
    } else {
        1
    }
}

/// Distance, in millimeters, of a variable-bit-scaled code.
pub open spec fn varbit_decode(code: int) -> int {
    varbit_base(code) + (code - varbit_code_base(code)) * varbit_scale(code)
}

/// A 10-bit two's-complement field.
pub open spec fn signed10(x: int) -> int {
    if x >= 512 {
        x - 1024
    } else {
        x
    }
}

/// Distance in q2 millimeters of a point predicted at `predict` from base
/// `base` at scale `scale`; the two extreme predictions mean no reading,
/// and a prediction below zero reads as zero.
pub open spec fn predicted_dist_q2(predict: int, base: int, scale: int) -> u32 {
    if predict == -512 || predict == 511 {
        0
    } else if predict * scale + base < 0 {
        0
    } else {
        ((predict * scale + base) * 4) as u32
    }
}

/// Distance in q2 millimeters of point `k` (0, 1 or 2) of packed word `w`,
/// where `next` is the packed word after it.
pub open spec fn ultra_dist_q2(w: u32, next: u32, k: int) -> u32 {
    let major = varbit_decode(w as int % 4096);
    let major2 = varbit_decode(next as int % 4096);
    let scale1 = varbit_scale(w as int % 4096);
    let scale2 = varbit_scale(next as int % 4096);
    let (base1, s1) = if major == 0 && major2 != 0 {
        (major2, scale2)
    } else {
        (major, scale1)
    };
    if k == 0 {
        (major * 4) as u32
    } else if k == 1 {
        predicted_dist_q2(signed10((w as int / 4096) % 1024), base1, s1)
    } else {
        predicted_dist_q2(signed10(w as int / 4194304), major2, scale2)
    }
}

/// Point `i` of ultra capsule `prev`, given the start angle `cur` and the
/// first packed word `cur_first` of the ultra capsule that followed it. Its
/// angle is interpolated over the span like a capsule's, with no refinement
/// offset.
pub open spec fn ultra_capsule_point(
    prev: RplidarResponseUltraCapsuleMeasurementNodes,
    cur: u16,
    cur_first: u32,
    i: int,
) -> RplidarResponseMeasurementNodeHq {
    let inc = angle_span_q8(prev.start_angle_sync_q6, cur) * 8 / 3;
    let raw = start_angle_q8(prev.start_angle_sync_q6) * 256 + i * inc;
    let pos = i / 3;
    let next = if pos + 1 < ULTRA_CAPSULE_CABINS {
        prev.ultra_cabins@[pos + 1]
    } else {
        cur_first
    };
    interpolated_node(raw, inc, 0, ultra_dist_q2(prev.ultra_cabins@[pos], next, i % 3))
}

fn varbit_decode_exec(code: i64) -> (r: (i64, i64))
    requires
        0 <= code < 4096,
    ensures
        r.0 == varbit_decode(code as int),
        r.1 == varbit_scale(code as int),
        0 <= r.0 <= 28656,
        1 <= r.1 <= 16,
{
    if code >= 3328 {
        (16384 + (code - 3328) * 16, 16)
    } else if code >= 1792 {
        (4096 + (code - 1792) * 8, 8)
    } else if code >= 1280 {
        (2048 + (code - 1280) * 4, 4)
    } else if code >= 512 {
        (512 + (code - 512) * 2, 2)
    } else {
        (code, 1)
    }
}

fn predicted_dist_q2_exec(predict: i64, base: i64, scale: i64) -> (r: u32)
    requires
        -512 <= predict < 512,
        0 <= base <= 28656,
        1 <= scale <= 16,
    ensures
        r == predicted_dist_q2(predict as int, base as int, scale as int),
{
    if predict == -512 || predict == 511 {
        return 0;
    }
    assert(-8192 <= predict * scale <= 8192) by (nonlinear_arith)
        requires -512 <= predict < 512, 1 <= scale <= 16;
    let v: i64 = predict * scale + base;
    if v < 0 {
        0
    } else {
        (v * 4) as u32
    }
}

fn signed10_exec(x: i64) -> (r: i64)
    requires
        0 <= x < 1024,
    ensures
        r == signed10(x as int),
        -512 <= r < 512,
{
    if x >= 512 {
        x - 1024
    } else {
        x
    }
}

fn ultra_dists_exec(w: u32, next: u32) -> (r: (u32, u32, u32))
    ensures
        r.0 == ultra_dist_q2(w, next, 0),
        r.1 == ultra_dist_q2(w, next, 1),
        r.2 == ultra_dist_q2(w, next, 2),
{
    let (major, scale1) = varbit_decode_exec((w % 4096) as i64);
    let (major2, scale2) = varbit_decode_exec((next % 4096) as i64);
    let (base1, s1) = if major == 0 && major2 != 0 {
        (major2, scale2)
    } else {
        (major, scale1)
    };
    let p1 = signed10_exec(((w / 4096) % 1024) as i64);
    let p2 = signed10_exec((w / 4194304) as i64);
    ((major * 4) as u32, predicted_dist_q2_exec(p1, base1, s1), predicted_dist_q2_exec(p2, major2, scale2))
}

/// Decodes ultra capsule `nodes` against the cached one, with the same
/// one-capsule lookahead as `parse_capsuled`: with an ultra capsule cached,
/// its points come out; with none, or a capsule of the other kind, nothing
/// comes out. Either way `nodes` is cached.
pub fn parse_ultra_capsuled(cached_prev: &CachedPrevCapsule, nodes: RplidarResponseUltraCapsuleMeasurementNodes) -> (r: (Vec<RplidarResponseMeasurementNodeHq>, CachedPrevCapsule))
    requires
        cached_prev.wf(),
        nodes.wf(),
    ensures
        r.1 == CachedPrevCapsule::UltraCapsuled(nodes),
        match cached_prev {
            CachedPrevCapsule::UltraCapsuled(prev) => {
                &&& r.0@.len() == ULTRA_CAPSULE_POINTS
                &&& forall|i: int| 0 <= i < ULTRA_CAPSULE_POINTS ==> #[trigger] r.0@[i] == ultra_capsule_point(*prev, nodes.start_angle_sync_q6, nodes.ultra_cabins@[0], i)
            },
            _ => r.0@.len() == 0,
        },
{
    let mut out: Vec<RplidarResponseMeasurementNodeHq> = Vec::new();
    match cached_prev {
        CachedPrevCapsule::UltraCapsuled(prev) => {
            let span = angle_span_q8_exec(prev.start_angle_sync_q6, nodes.start_angle_sync_q6);
            let inc: u64 = span * 8 / 3;
            let base: u64 = start_angle_q8_exec(prev.start_angle_sync_q6) * 256;
            let mut raw: u64 = base;
            let mut pos: usize = 0;
            while pos < ULTRA_CAPSULE_CABINS
                invariant
                    pos <= ULTRA_CAPSULE_CABINS,
                    prev.wf(),
                    nodes.wf(),
                    inc == angle_span_q8(prev.start_angle_sync_q6, nodes.start_angle_sync_q6) * 8 / 3,
                    inc <= 349515,
                    base == start_angle_q8(prev.start_angle_sync_q6) * 256,
                    base <= 131068 * 256,
                    raw == base + 3 * pos * inc,
                    out@.len() == 3 * pos,
                    forall|i: int| 0 <= i < 3 * pos ==> #[trigger] out@[i] == ultra_capsule_point(*prev, nodes.start_angle_sync_q6, nodes.ultra_cabins@[0], i),
                decreases ULTRA_CAPSULE_CABINS - pos,
            {
                let w = prev.ultra_cabins[pos];
                let next = if pos + 1 < ULTRA_CAPSULE_CABINS {
                    prev.ultra_cabins[pos + 1]
                } else {
                    nodes.ultra_cabins[0]
                };
                let (d0, d1, d2) = ultra_dists_exec(w, next);
                proof {
                    assert(3 * pos * inc + 3 * inc <= 96 * 349515) by (nonlinear_arith)
                        requires pos < 32, inc <= 349515;
                    assert(raw + inc == base + (3 * pos + 1) * inc) by (nonlinear_arith)
                        requires raw == base + 3 * pos * inc;
                    assert(raw + 2 * inc == base + (3 * pos + 2) * inc) by (nonlinear_arith)
                        requires raw == base + 3 * pos * inc;
                    assert(raw + 3 * inc == base + 3 * (pos + 1) * inc) by (nonlinear_arith)
                        requires raw == base + 3 * pos * inc;
                }
                out.push(interpolated_node_exec(raw, inc, 0, d0));
                raw = raw + inc;
                out.push(interpolated_node_exec(raw, inc, 0, d1));
                raw = raw + inc;
                out.push(interpolated_node_exec(raw, inc, 0, d2));
                raw = raw + inc;
                proof {
                    let i0 = 3 * pos as int;
                    assert(i0 / 3 == pos as int && i0 % 3 == 0);
                    assert((i0 + 1) / 3 == pos as int && (i0 + 1) % 3 == 1);
                    assert((i0 + 2) / 3 == pos as int && (i0 + 2) % 3 == 2);
                    assert(out@[i0] == ultra_capsule_point(*prev, nodes.start_angle_sync_q6, nodes.ultra_cabins@[0], i0));
                    assert(out@[i0 + 1] == ultra_capsule_point(*prev, nodes.start_angle_sync_q6, nodes.ultra_cabins@[0], i0 + 1));
                    assert(out@[i0 + 2] == ultra_capsule_point(*prev, nodes.start_angle_sync_q6, nodes.ultra_cabins@[0], i0 + 2));
                }
                pos = pos + 1;
            }
        },
        _ => {},
    }
    (out, CachedPrevCapsule::UltraCapsuled(nodes))
}

} // verus!
