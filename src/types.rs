//! The driver's output point, scan-mode descriptor and scan options.

use crate::answers::RplidarResponseMeasurementNodeHq;
use vstd::prelude::*;

verus! {

/// A measured point: angle as a q14 fraction of a full turn, distance in
/// q2 millimeters, quality, and flag (bit 0 set on the first point of a
/// revolution).
#[derive(Debug, Clone, Copy, PartialEq, Eq, Structural)]
pub struct ScanPoint {
    pub angle_z_q14: u16,
    pub dist_mm_q2: u32,
    pub quality: u8,
    pub flag: u8,
}

impl ScanPoint {
    /// Whether the point starts a new revolution.
    pub fn is_sync(&self) -> (r: bool)
        ensures
            r == (self.flag % 2 == 1),
    {
        self.flag % 2 == 1
    }

    /// Whether the point holds a distance reading.
    pub fn is_valid(&self) -> (r: bool)
        ensures
            r == (self.dist_mm_q2 != 0),
    {
        self.dist_mm_q2 != 0
    }
}

/// The point carried by a high-resolution node, field for field.
pub open spec fn point_of_hq(p: RplidarResponseMeasurementNodeHq) -> ScanPoint {
    ScanPoint { angle_z_q14: p.angle_z_q14, dist_mm_q2: p.dist_mm_q2, quality: p.quality, flag: p.flag }
}

impl From<RplidarResponseMeasurementNodeHq> for ScanPoint {
    fn from(p: RplidarResponseMeasurementNodeHq) -> (r: ScanPoint) {
        ScanPoint { angle_z_q14: p.angle_z_q14, dist_mm_q2: p.dist_mm_q2, quality: p.quality, flag: p.flag }
    }
}

impl vstd::std_specs::convert::FromSpecImpl<RplidarResponseMeasurementNodeHq> for ScanPoint {
    open spec fn obeys_from_spec() -> bool {
        true
    }

    open spec fn from_spec(p: RplidarResponseMeasurementNodeHq) -> ScanPoint {
        point_of_hq(p)
    }
}

/// A scan mode as the device describes it. Sample duration and maximum
/// distance are q8 fixed point (microseconds, meters).
#[derive(Debug, Clone)]
pub struct ScanMode {
    pub id: u16,
    pub us_per_sample_q8: u32,
    pub max_distance_q8: u32,
    pub ans_type: u8,
    pub name: String,
}

/// How to start a scan: the mode (the device's typical one where absent),
/// whether to force a legacy scan, and the express-scan flags.
#[derive(Debug, Clone, Copy, PartialEq, Eq, Structural)]
pub struct ScanOptions {
    pub scan_mode: Option<u16>,
    pub force_scan: bool,
    pub options: u32,
}

impl ScanOptions {
    /// Options for scanning in mode `scan_mode`.
    pub fn with_mode(scan_mode: u16) -> (r: ScanOptions)
        ensures
            r == (ScanOptions { scan_mode: Some(scan_mode), force_scan: false, options: 0 }),
    {
        ScanOptions { scan_mode: Some(scan_mode), force_scan: false, options: 0 }
    }

    /// Options for a forced legacy scan.
    pub fn force_scan() -> (r: ScanOptions)
        ensures
            r == (ScanOptions { scan_mode: Some(0), force_scan: true, options: 0 }),
    {
        ScanOptions { scan_mode: Some(0), force_scan: true, options: 0 }
    }
}

impl Default for ScanOptions {
    fn default() -> (r: ScanOptions)
        ensures
            r == (ScanOptions { scan_mode: None, force_scan: false, options: 0 }),
    {
        ScanOptions { scan_mode: None, force_scan: false, options: 0 }
    }
}

} // verus!
