//! Command opcodes, answer types and configuration keys of the protocol.

use vstd::prelude::*;

verus! {

pub const RPLIDAR_CMD_STOP: u8 = 0x25;
pub const RPLIDAR_CMD_SCAN: u8 = 0x20;
pub const RPLIDAR_CMD_FORCE_SCAN: u8 = 0x21;
pub const RPLIDAR_CMD_RESET: u8 = 0x40;
pub const RPLIDAR_CMD_GET_DEVICE_INFO: u8 = 0x50;
pub const RPLIDAR_CMD_EXPRESS_SCAN: u8 = 0x82;
pub const RPLIDAR_CMD_GET_LIDAR_CONF: u8 = 0x84;
pub const RPLIDAR_CMD_SET_MOTOR_PWM: u8 = 0xF0;

pub const RPLIDAR_ANS_TYPE_DEVINFO: u8 = 0x4;
pub const RPLIDAR_ANS_TYPE_GET_LIDAR_CONF: u8 = 0x20;
pub const RPLIDAR_ANS_TYPE_MEASUREMENT: u8 = 0x81;
pub const RPLIDAR_ANS_TYPE_MEASUREMENT_CAPSULED: u8 = 0x82;
pub const RPLIDAR_ANS_TYPE_MEASUREMENT_HQ: u8 = 0x83;
pub const RPLIDAR_ANS_TYPE_MEASUREMENT_CAPSULED_ULTRA: u8 = 0x84;

pub const RPLIDAR_CONF_SCAN_MODE_COUNT: u32 = 0x70;
pub const RPLIDAR_CONF_SCAN_MODE_US_PER_SAMPLE: u32 = 0x71;
pub const RPLIDAR_CONF_SCAN_MODE_MAX_DISTANCE: u32 = 0x74;
pub const RPLIDAR_CONF_SCAN_MODE_ANS_TYPE: u32 = 0x75;
pub const RPLIDAR_CONF_SCAN_MODE_TYPICAL: u32 = 0x7C;
pub const RPLIDAR_CONF_SCAN_MODE_NAME: u32 = 0x7F;

} // verus!
