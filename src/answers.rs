//! Answer records of the device, read field by field from their wire bytes.

use crate::le_bytes::{le_u16_spec, le_u32_spec, read_u16_le, read_u32_le};
use vstd::prelude::*;

verus! {

/// Error kinds reported by the driver.
#[derive(Debug, Clone, Copy, PartialEq, Eq, Structural)]
pub enum DriverError {
    /// A well-formed answer did not match what was asked for.
    OperationFail,
    /// Nothing arrived within the caller's time budget.
    OperationTimeout,
    /// The data broke the protocol: bad framing, an unexpected answer, bad text.
    ProtocolError,
}

/// Device information answer.
#[derive(Debug, Clone, PartialEq, Eq)]
pub struct RplidarResponseDeviceInfo {
    pub model: u8,
    pub firmware_version: u16,
    pub hardware_version: u8,
    pub serialnum: Vec<u8>,
}

/// Legacy measurement node.
#[derive(Debug, Clone, Copy, PartialEq, Eq, Structural)]
pub struct RplidarResponseMeasurementNode {
    pub sync_quality: u8,
    pub angle_q6_checkbit: u16,
    pub distance_q2: u16,
}

/// High-resolution measurement node.
#[derive(Debug, Clone, Copy, PartialEq, Eq, Structural)]
pub struct RplidarResponseMeasurementNodeHq {
    pub angle_z_q14: u16,
    pub dist_mm_q2: u32,
    pub quality: u8,
    pub flag: u8,
}

/// One cabin of a capsule: two distances, each with two bits of angle
/// offset, and the low four bits of both offsets.
#[derive(Debug, Clone, Copy, PartialEq, Eq, Structural)]
pub struct RplidarResponseCabinNodes {
    pub distance_angle_1: u16,
    pub distance_angle_2: u16,
    pub offset_angles_q3: u8,
}

/// Cabins in a capsule.
pub const CAPSULE_CABINS: usize = 16;

/// Packed words in an ultra capsule.
pub const ULTRA_CAPSULE_CABINS: usize = 32;

/// Capsule answer.
#[derive(Debug, Clone)]
pub struct RplidarResponseCapsuleMeasurementNodes {
    pub s_checksum_1: u8,
    pub s_checksum_2: u8,
    pub start_angle_sync_q6: u16,
    pub cabins: Vec<RplidarResponseCabinNodes>,
}

/// Ultra capsule answer: each word packs one major distance and two
/// predicted distances.
#[derive(Debug, Clone)]
pub struct RplidarResponseUltraCapsuleMeasurementNodes {
    pub s_checksum_1: u8,
    pub s_checksum_2: u8,
    pub start_angle_sync_q6: u16,
    pub ultra_cabins: Vec<u32>,
}

impl RplidarResponseCapsuleMeasurementNodes {
    pub open spec fn wf(&self) -> bool {
        self.cabins@.len() == CAPSULE_CABINS
    }
}

impl RplidarResponseUltraCapsuleMeasurementNodes {
    pub open spec fn wf(&self) -> bool {
        self.ultra_cabins@.len() == ULTRA_CAPSULE_CABINS
    }
}

/// Wire sizes of the records.
pub const DEVICE_INFO_SIZE: usize = 20;
pub const MEASUREMENT_NODE_SIZE: usize = 5;
pub const MEASUREMENT_NODE_HQ_SIZE: usize = 8;
pub const CAPSULE_SIZE: usize = 84;
pub const ULTRA_CAPSULE_SIZE: usize = 132;

pub open spec fn le16_at(d: Seq<u8>, at: int) -> u16 {
    le_u16_spec(d[at], d[at + 1])
}

pub open spec fn le32_at(d: Seq<u8>, at: int) -> u32 {
    le_u32_spec(d[at], d[at + 1], d[at + 2], d[at + 3])
}

/// The cabin whose five bytes start at `at`.
pub open spec fn cabin_at(d: Seq<u8>, at: int) -> RplidarResponseCabinNodes {
    RplidarResponseCabinNodes {
        distance_angle_1: le16_at(d, at),
        distance_angle_2: le16_at(d, at + 2),
        offset_angles_q3: d[at + 4],
    }
}

/// Reads a device information answer; any other size is refused.
pub fn parse_device_info(d: &[u8]) -> (r: Result<RplidarResponseDeviceInfo, DriverError>)
    ensures
        d@.len() != DEVICE_INFO_SIZE <==> r is Err,
        r is Err ==> r->Err_0 == DriverError::OperationFail,
        r is Ok ==> ({
            let v = r->Ok_0;
            &&& v.model == d@[0]
            &&& v.firmware_version == le16_at(d@, 1)
            &&& v.hardware_version == d@[3]
            &&& v.serialnum@ == d@.subrange(4, 20)
        }),
{
    if d.len() != DEVICE_INFO_SIZE {
        return Err(DriverError::OperationFail);
    }
    let mut serialnum: Vec<u8> = Vec::new();
    let mut i: usize = 4;
    while i < DEVICE_INFO_SIZE
        invariant
            4 <= i <= DEVICE_INFO_SIZE,
            d@.len() == DEVICE_INFO_SIZE,
            serialnum@ == d@.subrange(4, i as int),
        decreases DEVICE_INFO_SIZE - i,
    {
        serialnum.push(d[i]);
        i = i + 1;
        assert(serialnum@ =~= d@.subrange(4, i as int));
    }
    Ok(RplidarResponseDeviceInfo {
        model: d[0],
        firmware_version: read_u16_le(d, 1),
        hardware_version: d[3],
        serialnum,
    })
}

/// Reads a legacy measurement node; any other size is refused.
pub fn parse_measurement_node(d: &[u8]) -> (r: Result<RplidarResponseMeasurementNode, DriverError>)
    ensures
        d@.len() != MEASUREMENT_NODE_SIZE ==> r == Err::<RplidarResponseMeasurementNode, DriverError>(
            DriverError::OperationFail,
        ),
        d@.len() == MEASUREMENT_NODE_SIZE ==> r == Ok::<RplidarResponseMeasurementNode, DriverError>(
            RplidarResponseMeasurementNode {
                sync_quality: d@[0],
                angle_q6_checkbit: le16_at(d@, 1),
                distance_q2: le16_at(d@, 3),
            },
        ),
{
    if d.len() != MEASUREMENT_NODE_SIZE {
        return Err(DriverError::OperationFail);
    }
    Ok(RplidarResponseMeasurementNode {
        sync_quality: d[0],
        angle_q6_checkbit: read_u16_le(d, 1),
        distance_q2: read_u16_le(d, 3),
    })
}

/// Reads a high-resolution measurement node; any other size is refused.
pub fn parse_measurement_node_hq(d: &[u8]) -> (r: Result<RplidarResponseMeasurementNodeHq, DriverError>)
    ensures
        d@.len() != MEASUREMENT_NODE_HQ_SIZE ==> r == Err::<RplidarResponseMeasurementNodeHq, DriverError>(
            DriverError::OperationFail,
        ),
        d@.len() == MEASUREMENT_NODE_HQ_SIZE ==> r == Ok::<RplidarResponseMeasurementNodeHq, DriverError>(
            RplidarResponseMeasurementNodeHq {
                angle_z_q14: le16_at(d@, 0),
                dist_mm_q2: le32_at(d@, 2),
                quality: d@[6],
                flag: d@[7],
            },
        ),
{
    if d.len() != MEASUREMENT_NODE_HQ_SIZE {
        return Err(DriverError::OperationFail);
    }
    Ok(RplidarResponseMeasurementNodeHq {
        angle_z_q14: read_u16_le(d, 0),
        dist_mm_q2: read_u32_le(d, 2),
        quality: d[6],
        flag: d[7],
    })
}

/// Reads a capsule; any other size is refused.
pub fn parse_capsule(d: &[u8]) -> (r: Result<RplidarResponseCapsuleMeasurementNodes, DriverError>)
    ensures
        d@.len() != CAPSULE_SIZE <==> r is Err,
        r is Err ==> r->Err_0 == DriverError::OperationFail,
        r is Ok ==> ({
            let c = r->Ok_0;
            &&& c.wf()
            &&& c.s_checksum_1 == d@[0]
            &&& c.s_checksum_2 == d@[1]
            &&& c.start_angle_sync_q6 == le16_at(d@, 2)
            &&& forall|i: int| 0 <= i < CAPSULE_CABINS ==> #[trigger] c.cabins@[i] == cabin_at(d@, 4 + 5 * i)
        }),
{
    if d.len() != CAPSULE_SIZE {
        return Err(DriverError::OperationFail);
    }
    let mut cabins: Vec<RplidarResponseCabinNodes> = Vec::new();
    let mut i: usize = 0;
    while i < CAPSULE_CABINS
        invariant
            i <= CAPSULE_CABINS,
            d@.len() == CAPSULE_SIZE,
            cabins@.len() == i,
            forall|k: int| 0 <= k < i ==> #[trigger] cabins@[k] == cabin_at(d@, 4 + 5 * k),
        decreases CAPSULE_CABINS - i,
    {
        let at: usize = 4 + 5 * i;
        cabins.push(RplidarResponseCabinNodes {
            distance_angle_1: read_u16_le(d, at),
            distance_angle_2: read_u16_le(d, at + 2),
            offset_angles_q3: d[at + 4],
        });
        i = i + 1;
    }
    Ok(RplidarResponseCapsuleMeasurementNodes {
        s_checksum_1: d[0],
        s_checksum_2: d[1],
        start_angle_sync_q6: read_u16_le(d, 2),
        cabins,
    })
}

/// Reads an ultra capsule; any other size is refused.
pub fn parse_ultra_capsule(d: &[u8]) -> (r: Result<RplidarResponseUltraCapsuleMeasurementNodes, DriverError>)
    ensures
        d@.len() != ULTRA_CAPSULE_SIZE <==> r is Err,
        r is Err ==> r->Err_0 == DriverError::OperationFail,
        r is Ok ==> ({
            let c = r->Ok_0;
            &&& c.wf()
            &&& c.s_checksum_1 == d@[0]
            &&& c.s_checksum_2 == d@[1]
            &&& c.start_angle_sync_q6 == le16_at(d@, 2)
            &&& forall|i: int| 0 <= i < ULTRA_CAPSULE_CABINS ==> #[trigger] c.ultra_cabins@[i] == le32_at(d@, 4 + 4 * i)
        }),
{
    if d.len() != ULTRA_CAPSULE_SIZE {
        return Err(DriverError::OperationFail);
    }
    let mut words: Vec<u32> = Vec::new();
    let mut i: usize = 0;
    while i < ULTRA_CAPSULE_CABINS
        invariant
            i <= ULTRA_CAPSULE_CABINS,
            d@.len() == ULTRA_CAPSULE_SIZE,
            words@.len() == i,
            forall|k: int| 0 <= k < i ==> #[trigger] words@[k] == le32_at(d@, 4 + 4 * k),
        decreases ULTRA_CAPSULE_CABINS - i,
    {
        words.push(read_u32_le(d, 4 + 4 * i));
        i = i + 1;
    }
    Ok(RplidarResponseUltraCapsuleMeasurementNodes {
        s_checksum_1: d[0],
        s_checksum_2: d[1],
        start_angle_sync_q6: read_u16_le(d, 2),
        ultra_cabins: words,
    })
}

} // verus!
