use rplidar_drv::answers::DriverError;
use rplidar_drv::capsule::{parse_capsuled, CachedPrevCapsule};
use rplidar_drv::checksum::{check_sync_and_checksum, FrameError};
use rplidar_drv::cmds::{
    RPLIDAR_ANS_TYPE_MEASUREMENT, RPLIDAR_ANS_TYPE_MEASUREMENT_CAPSULED,
    RPLIDAR_ANS_TYPE_MEASUREMENT_CAPSULED_ULTRA, RPLIDAR_ANS_TYPE_MEASUREMENT_HQ,
    RPLIDAR_CMD_EXPRESS_SCAN, RPLIDAR_CMD_FORCE_SCAN, RPLIDAR_CMD_SCAN,
};
use rplidar_drv::device::{DeviceState, ScanFrame};
use rplidar_drv::negotiation::{
    check_device_info_answer, check_lidar_conf_answer, lidar_conf_request, motor_pwm_payload,
    next_scan_mode_to_list, parse_scan_mode_name, parse_u16_answer, parse_u32_answer, parse_u8_answer, scan_mode_param,
    start_scan_request,
};
use rplidar_drv::types::{ScanOptions, ScanPoint};

/// Puts sync nibbles and the XOR checksum into the first two bytes.
fn seal(mut payload: Vec<u8>) -> Vec<u8> {
    let cs = payload[2..].iter().fold(0u8, |a, b| a ^ b);
    payload[0] = 0xA0 | (cs & 0xf);
    payload[1] = 0x50 | (cs >> 4);
    payload
}

/// A capsule with start angle `start_q6`, each cabin holding `da1`, `da2`, `off`.
fn capsule_bytes(start_q6: u16, da1: u16, da2: u16, off: u8) -> Vec<u8> {
    let mut v = vec![0u8, 0u8];
    v.extend_from_slice(&start_q6.to_le_bytes());
    for _ in 0..16 {
        v.extend_from_slice(&da1.to_le_bytes());
        v.extend_from_slice(&da2.to_le_bytes());
        v.push(off);
    }
    seal(v)
}

fn ultra_bytes(start_q6: u16, word: u32) -> Vec<u8> {
    let mut v = vec![0u8, 0u8];
    v.extend_from_slice(&start_q6.to_le_bytes());
    for _ in 0..32 {
        v.extend_from_slice(&word.to_le_bytes());
    }
    seal(v)
}

fn drain(state: &mut DeviceState) -> Vec<ScanPoint> {
    let mut out = Vec::new();
    while let Some(p) = state.grab_cached_point() {
        out.push(p);
    }
    out
}

#[test]
fn it_works() {
    assert_eq!(2 + 2, 4);
}

#[test]
fn checksum_accepts_sealed_payload() {
    let p = seal(vec![0, 0, 1, 2, 3, 0x80]);
    assert_eq!(check_sync_and_checksum(&p), Ok(()));
}

#[test]
fn checksum_too_short() {
    assert_eq!(check_sync_and_checksum(&[]), Err(FrameError::TooShort));
    assert_eq!(check_sync_and_checksum(&[0xA0]), Err(FrameError::TooShort));
}

#[test]
fn checksum_sync_mismatch() {
    let mut p = seal(vec![0, 0, 1, 2, 3]);
    p[1] = (p[1] & 0xf) | 0x60;
    assert_eq!(check_sync_and_checksum(&p), Err(FrameError::SyncMismatch));
    let mut q = seal(vec![0, 0, 1, 2, 3]);
    q[0] = q[0] & 0xf;
    assert_eq!(check_sync_and_checksum(&q), Err(FrameError::SyncMismatch));
}

#[test]
fn checksum_detects_any_single_byte_change() {
    let p = seal(vec![0, 0, 7, 9, 11, 13, 200]);
    for i in 2..p.len() {
        for v in [0u8, 1, 0x55, 0xff] {
            if v != p[i] {
                let mut q = p.clone();
                q[i] = v;
                assert_eq!(check_sync_and_checksum(&q), Err(FrameError::ChecksumMismatch));
            }
        }
    }
}

#[test]
fn first_capsule_releases_nothing() {
    let mut st = DeviceState::new();
    let c = capsule_bytes(640, 4000, 4000, 0);
    assert_eq!(st.on_scan_data(RPLIDAR_ANS_TYPE_MEASUREMENT_CAPSULED, &c), Ok(()));
    assert!(drain(&mut st).is_empty());
    assert!(matches!(st.cached_prev_capsule, CachedPrevCapsule::Capsuled(_)));
}

#[test]
fn capsule_pair_interpolates_angles() {
    let mut st = DeviceState::new();
    // 10 degrees, then 12 degrees: 2 degrees spread over 32 points
    st.on_scan_data(RPLIDAR_ANS_TYPE_MEASUREMENT_CAPSULED, &capsule_bytes(640, 4000, 4000, 0)).unwrap();
    st.on_scan_data(RPLIDAR_ANS_TYPE_MEASUREMENT_CAPSULED, &capsule_bytes(768, 8000, 8000, 0)).unwrap();
    let pts = drain(&mut st);
    assert_eq!(pts.len(), 32);
    assert_eq!(pts[0], ScanPoint { angle_z_q14: 1820, dist_mm_q2: 4000, quality: 188, flag: 2 });
    assert_eq!(pts[1].angle_z_q14, 1831);
    // the last point sits at 10 + 2 * 31/32 degrees, 764 in q6
    assert_eq!(pts[31].angle_z_q14, (764u32 * 256 / 90) as u16);
}

#[test]
fn capsule_offset_is_subtracted() {
    let mut st = DeviceState::new();
    // low four bits of the offset byte and two low bits of distance 1 give 8 (one degree)
    st.on_scan_data(RPLIDAR_ANS_TYPE_MEASUREMENT_CAPSULED, &capsule_bytes(640, 4000, 4000, 8)).unwrap();
    st.on_scan_data(RPLIDAR_ANS_TYPE_MEASUREMENT_CAPSULED, &capsule_bytes(768, 4000, 4000, 8)).unwrap();
    let pts = drain(&mut st);
    assert_eq!(pts[0].angle_z_q14, 1638);
    // offset 16 from the low bits of distance 1: two degrees; distance keeps its upper bits
    let mut st = DeviceState::new();
    st.on_scan_data(RPLIDAR_ANS_TYPE_MEASUREMENT_CAPSULED, &capsule_bytes(640, 4001, 4000, 0)).unwrap();
    st.on_scan_data(RPLIDAR_ANS_TYPE_MEASUREMENT_CAPSULED, &capsule_bytes(768, 4000, 4000, 0)).unwrap();
    let pts = drain(&mut st);
    assert_eq!(pts[0].dist_mm_q2, 4000);
    assert_eq!(pts[0].angle_z_q14, (512u32 * 256 / 90) as u16);
}

#[test]
fn capsule_span_wraps_around() {
    let mut st = DeviceState::new();
    // 359 degrees, then 1 degree: the span is 2 degrees, not minus 358
    st.on_scan_data(RPLIDAR_ANS_TYPE_MEASUREMENT_CAPSULED, &capsule_bytes(22976, 4000, 4000, 0)).unwrap();
    st.on_scan_data(RPLIDAR_ANS_TYPE_MEASUREMENT_CAPSULED, &capsule_bytes(64, 4000, 4000, 0)).unwrap();
    let pts = drain(&mut st);
    assert_eq!(pts.len(), 32);
    assert_eq!(pts[0].angle_z_q14, 65353);
    assert_eq!(pts[15].flag, 1);
    assert_eq!(pts[14].flag, 2);
    assert_eq!(pts[16].angle_z_q14, 0);
    assert_eq!(pts[31].angle_z_q14, (60u32 * 256 / 90) as u16);
}

#[test]
fn zero_distance_has_zero_quality() {
    let mut st = DeviceState::new();
    st.on_scan_data(RPLIDAR_ANS_TYPE_MEASUREMENT_CAPSULED, &capsule_bytes(640, 0, 4000, 0)).unwrap();
    st.on_scan_data(RPLIDAR_ANS_TYPE_MEASUREMENT_CAPSULED, &capsule_bytes(768, 0, 4000, 0)).unwrap();
    let pts = drain(&mut st);
    assert_eq!(pts[0].quality, 0);
    assert_eq!(pts[1].quality, 188);
    assert!(!pts[0].is_valid());
}

#[test]
fn bad_capsule_is_dropped_and_cache_kept() {
    let mut st = DeviceState::new();
    st.on_scan_data(RPLIDAR_ANS_TYPE_MEASUREMENT_CAPSULED, &capsule_bytes(640, 4000, 4000, 0)).unwrap();
    let mut bad = capsule_bytes(700, 4000, 4000, 0);
    bad[10] ^= 1;
    assert_eq!(st.on_scan_data(RPLIDAR_ANS_TYPE_MEASUREMENT_CAPSULED, &bad), Ok(()));
    assert!(drain(&mut st).is_empty());
    assert_eq!(st.on_measurement_capsuled_msg(&bad), Err(DriverError::ProtocolError));
    assert_eq!(st.on_measurement_capsuled_msg(&seal(vec![0; 10])), Err(DriverError::OperationFail));
    st.on_scan_data(RPLIDAR_ANS_TYPE_MEASUREMENT_CAPSULED, &capsule_bytes(768, 4000, 4000, 0)).unwrap();
    let pts = drain(&mut st);
    assert_eq!(pts[0].angle_z_q14, 1820);
}

#[test]
fn scan_start_reset_forgets_capsule() {
    let mut st = DeviceState::new();
    st.on_scan_data(RPLIDAR_ANS_TYPE_MEASUREMENT_CAPSULED, &capsule_bytes(640, 4000, 4000, 0)).unwrap();
    st.reset_capsule_cache();
    st.on_scan_data(RPLIDAR_ANS_TYPE_MEASUREMENT_CAPSULED, &capsule_bytes(768, 4000, 4000, 0)).unwrap();
    assert!(drain(&mut st).is_empty());
}

#[test]
fn switching_capsule_kind_releases_nothing() {
    let mut st = DeviceState::new();
    st.on_scan_data(RPLIDAR_ANS_TYPE_MEASUREMENT_CAPSULED, &capsule_bytes(640, 4000, 4000, 0)).unwrap();
    st.on_scan_data(RPLIDAR_ANS_TYPE_MEASUREMENT_CAPSULED_ULTRA, &ultra_bytes(768, 100)).unwrap();
    assert!(drain(&mut st).is_empty());
}

// The second capsule format is decoded with the same pairing as the first:
// a cached ultra capsule is released when the next one arrives.
#[test]
fn ultra_capsule_pair_is_decoded() {
    let mut st = DeviceState::new();
    st.on_scan_data(RPLIDAR_ANS_TYPE_MEASUREMENT_CAPSULED_ULTRA, &ultra_bytes(640, 100)).unwrap();
    assert!(drain(&mut st).is_empty());
    st.on_scan_data(RPLIDAR_ANS_TYPE_MEASUREMENT_CAPSULED_ULTRA, &ultra_bytes(832, 100)).unwrap();
    let pts = drain(&mut st);
    assert_eq!(pts.len(), 96);
    assert_eq!(pts[0], ScanPoint { angle_z_q14: 1820, dist_mm_q2: 400, quality: 188, flag: 2 });
    assert_eq!(pts[1].dist_mm_q2, 400);
    assert_eq!(pts[2].dist_mm_q2, 400);
    // 3 degrees over 96 points: 2048 q16 a point, so point 48 is at 11.5 degrees
    assert_eq!(pts[48].angle_z_q14, (736u32 * 256 / 90) as u16);
}

#[test]
fn ultra_capsule_distance_codes() {
    let mut st = DeviceState::new();
    // major code 3328 decodes to 16384 mm; prediction 511 means no reading;
    // prediction -1 at scale 16 is 16 mm below the next major
    let word: u32 = 3328 | (511 << 12) | (1023 << 22);
    st.on_scan_data(RPLIDAR_ANS_TYPE_MEASUREMENT_CAPSULED_ULTRA, &ultra_bytes(640, word)).unwrap();
    st.on_scan_data(RPLIDAR_ANS_TYPE_MEASUREMENT_CAPSULED_ULTRA, &ultra_bytes(832, word)).unwrap();
    let pts = drain(&mut st);
    assert_eq!(pts[0].dist_mm_q2, 16384 * 4);
    assert_eq!(pts[1].dist_mm_q2, 0);
    assert_eq!(pts[1].quality, 0);
    assert_eq!(pts[2].dist_mm_q2, (16384 - 16) * 4);
}

#[test]
fn parse_capsuled_caches_new_capsule() {
    let c = rplidar_drv::answers::parse_capsule(&capsule_bytes(640, 4000, 4000, 0)).unwrap();
    let (out, cache) = parse_capsuled(&CachedPrevCapsule::Empty, c);
    assert!(out.is_empty());
    match cache {
        CachedPrevCapsule::Capsuled(c) => assert_eq!(c.start_angle_sync_q6, 640),
        _ => panic!("capsule not cached"),
    }
}

#[test]
fn legacy_node_is_normalized() {
    let mut st = DeviceState::new();
    // quality 15 with the sync bit, angle 90 degrees with its check bit, 100 mm
    let data = vec![0x3d, 0x01, 0x2d, 0x90, 0x01];
    assert_eq!(st.on_scan_data(RPLIDAR_ANS_TYPE_MEASUREMENT, &data), Ok(()));
    let p = st.grab_cached_point().unwrap();
    assert_eq!(p, ScanPoint { angle_z_q14: 16384, dist_mm_q2: 400, quality: 60, flag: 1 });
    assert!(p.is_sync());
    assert_eq!(st.on_scan_data(RPLIDAR_ANS_TYPE_MEASUREMENT, &[1, 2, 3]), Err(DriverError::OperationFail));
}

#[test]
fn hq_node_is_queued_as_is() {
    let mut st = DeviceState::new();
    let data = vec![0x00, 0x40, 0x10, 0x27, 0x00, 0x00, 0x2f, 0x02];
    assert_eq!(st.on_scan_data(RPLIDAR_ANS_TYPE_MEASUREMENT_HQ, &data), Ok(()));
    assert_eq!(
        st.grab_cached_point(),
        Some(ScanPoint { angle_z_q14: 0x4000, dist_mm_q2: 10000, quality: 0x2f, flag: 2 })
    );
    assert_eq!(st.on_scan_data(RPLIDAR_ANS_TYPE_MEASUREMENT_HQ, &data[..7]), Err(DriverError::OperationFail));
}

#[test]
fn unexpected_answer_is_protocol_error() {
    let mut st = DeviceState::new();
    assert_eq!(st.on_scan_data(0x04, &[1, 2, 3]), Err(DriverError::ProtocolError));
}

#[test]
fn grab_times_out_on_empty_queue() {
    let mut st = DeviceState::new();
    assert_eq!(st.grab_scan_point_with_frame(None), Err(DriverError::OperationTimeout));
    let first = ScanFrame { cmd: RPLIDAR_ANS_TYPE_MEASUREMENT_CAPSULED, data: capsule_bytes(640, 4000, 4000, 0) };
    assert_eq!(st.grab_scan_point_with_frame(Some(first)), Err(DriverError::OperationTimeout));
}

#[test]
fn grab_serves_points_in_decode_order() {
    let mut st = DeviceState::new();
    let frames = vec![
        ScanFrame { cmd: RPLIDAR_ANS_TYPE_MEASUREMENT_HQ, data: vec![1, 0, 1, 0, 0, 0, 9, 0] },
        ScanFrame { cmd: RPLIDAR_ANS_TYPE_MEASUREMENT_HQ, data: vec![2, 0, 2, 0, 0, 0, 9, 0] },
        ScanFrame { cmd: RPLIDAR_ANS_TYPE_MEASUREMENT_HQ, data: vec![3, 0, 3, 0, 0, 0, 9, 0] },
    ];
    for f in frames {
        st.on_scan_data(f.cmd, &f.data).unwrap();
    }
    for k in 1..=3u16 {
        assert_eq!(st.grab_scan_point_with_frame(None).unwrap().angle_z_q14, k);
    }
    assert_eq!(st.grab_scan_point_with_frame(None), Err(DriverError::OperationTimeout));
    let f = ScanFrame { cmd: RPLIDAR_ANS_TYPE_MEASUREMENT_HQ, data: vec![7, 0, 1, 0, 0, 0, 9, 0] };
    assert_eq!(st.grab_scan_point_with_frame(Some(f)).unwrap().angle_z_q14, 7);
}

#[test]
fn conf_round_trip() {
    assert_eq!(lidar_conf_request(0x71, &[2, 0]), vec![0x71, 0, 0, 0, 2, 0]);
    let answer = vec![0x71, 0, 0, 0, 0x00, 0x19, 0, 0];
    assert_eq!(check_lidar_conf_answer(0x71, 0x20, &answer), Ok(vec![0x00, 0x19, 0, 0]));
    assert_eq!(check_lidar_conf_answer(0x74, 0x20, &answer), Err(DriverError::OperationFail));
    assert_eq!(check_lidar_conf_answer(0x71, 0x21, &answer), Err(DriverError::OperationFail));
    assert_eq!(check_lidar_conf_answer(0x71, 0x20, &[0x71, 0, 0]), Err(DriverError::OperationFail));
    assert_eq!(check_lidar_conf_answer(0x71, 0x20, &[0x71, 0, 0, 0]), Ok(vec![]));
}

#[test]
fn typical_mode_express_scan_scenario() {
    assert_eq!(parse_u16_answer(&[2, 0]), Ok(2));
    // 25.0 us and 16000.0 as q8
    assert_eq!(parse_u32_answer(&6400u32.to_le_bytes()), Ok(6400));
    assert_eq!(parse_u32_answer(&4096000u32.to_le_bytes()), Ok(4096000));
    assert_eq!(parse_u8_answer(&[RPLIDAR_ANS_TYPE_MEASUREMENT_CAPSULED]), Ok(0x82));
    assert_eq!(parse_scan_mode_name(b"Express\0\0\0"), Ok("Express".to_string()));
    assert_eq!(scan_mode_param(2), vec![2, 0]);
    let req = start_scan_request(2, &ScanOptions::default());
    assert_eq!(req.cmd, RPLIDAR_CMD_EXPRESS_SCAN);
    assert_eq!(req.data, vec![2, 0, 0, 0, 0]);
}

#[test]
fn legacy_scan_requests() {
    let req = start_scan_request(0, &ScanOptions::default());
    assert_eq!(req.cmd, RPLIDAR_CMD_SCAN);
    assert!(req.data.is_empty());
    let req = start_scan_request(0, &ScanOptions::force_scan());
    assert_eq!(req.cmd, RPLIDAR_CMD_FORCE_SCAN);
    let opts = ScanOptions { scan_mode: Some(3), force_scan: false, options: 0x0102 };
    let req = start_scan_request(3, &opts);
    assert_eq!(req.data, vec![3, 0x02, 0x01, 0, 0]);
}

#[test]
fn answer_sizes_are_checked() {
    assert_eq!(parse_u16_answer(&[2]), Err(DriverError::OperationFail));
    assert_eq!(parse_u32_answer(&[2, 0, 0]), Err(DriverError::OperationFail));
    assert_eq!(parse_u8_answer(&[]), Err(DriverError::OperationFail));
    assert_eq!(parse_u16_answer(&[0x34, 0x12]), Ok(0x1234));
}

#[test]
fn mode_name_must_be_text() {
    assert_eq!(parse_scan_mode_name(&[0xff, 0xfe, 0]), Err(DriverError::ProtocolError));
    assert_eq!(parse_scan_mode_name(&[0, b'A', b'b', 0]), Ok("Ab".to_string()));
    assert_eq!(parse_scan_mode_name(&[0, 0]), Ok(String::new()));
}

#[test]
fn little_endian_payloads() {
    assert_eq!(motor_pwm_payload(0x1234), vec![0x34, 0x12]);
    assert_eq!(lidar_conf_request(0x7F, &[]), vec![0x7F, 0, 0, 0]);
}

#[test]
fn device_info_answer() {
    let mut data = vec![0x18, 0x1d, 0x01, 0x07];
    data.extend(0u8..16);
    let info = check_device_info_answer(0x04, &data).unwrap();
    assert_eq!(info.model, 0x18);
    assert_eq!(info.firmware_version, 0x011d);
    assert_eq!(info.hardware_version, 7);
    assert_eq!(info.serialnum, (0u8..16).collect::<Vec<u8>>());
    assert_eq!(check_device_info_answer(0x05, &data), Err(DriverError::OperationFail));
    assert_eq!(check_device_info_answer(0x04, &data[..19]), Err(DriverError::OperationFail));
}

#[test]
fn begin_scan_resets_cache_and_keeps_queue() {
    let mut st = DeviceState::new();
    st.on_scan_data(RPLIDAR_ANS_TYPE_MEASUREMENT_HQ, &[1, 0, 1, 0, 0, 0, 9, 0]).unwrap();
    st.on_scan_data(RPLIDAR_ANS_TYPE_MEASUREMENT_CAPSULED, &capsule_bytes(640, 4000, 4000, 0)).unwrap();
    assert_eq!(st.begin_scan(&ScanOptions::with_mode(2)), Some(2));
    assert!(matches!(st.cached_prev_capsule, CachedPrevCapsule::Empty));
    assert_eq!(st.begin_scan(&ScanOptions::default()), None);
    st.on_scan_data(RPLIDAR_ANS_TYPE_MEASUREMENT_CAPSULED, &capsule_bytes(768, 4000, 4000, 0)).unwrap();
    assert_eq!(drain(&mut st).len(), 1);
}

#[test]
fn scan_modes_listed_in_ascending_order() {
    assert_eq!(next_scan_mode_to_list(3, 0), Some(0));
    assert_eq!(next_scan_mode_to_list(3, 2), Some(2));
    assert_eq!(next_scan_mode_to_list(3, 3), None);
    assert_eq!(next_scan_mode_to_list(0, 0), None);
}

#[test]
fn refused_frame_leaves_state_usable() {
    let mut st = DeviceState::new();
    st.on_scan_data(RPLIDAR_ANS_TYPE_MEASUREMENT_CAPSULED, &capsule_bytes(640, 4000, 4000, 0)).unwrap();
    let bad = ScanFrame { cmd: 0x04, data: vec![1, 2, 3] };
    assert_eq!(st.grab_scan_point_with_frame(Some(bad)), Err(DriverError::ProtocolError));
    assert!(matches!(st.cached_prev_capsule, CachedPrevCapsule::Capsuled(_)));
    let next = ScanFrame { cmd: RPLIDAR_ANS_TYPE_MEASUREMENT_CAPSULED, data: capsule_bytes(768, 4000, 4000, 0) };
    assert_eq!(st.grab_scan_point_with_frame(Some(next)).unwrap().angle_z_q14, 1820);
}
