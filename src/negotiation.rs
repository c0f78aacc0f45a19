//! Requests and answers of the configuration queries and the scan start.

use crate::answers::{le16_at, le32_at, parse_device_info, DriverError, RplidarResponseDeviceInfo, DEVICE_INFO_SIZE};
use crate::cmds::{
    RPLIDAR_ANS_TYPE_DEVINFO, RPLIDAR_ANS_TYPE_GET_LIDAR_CONF, RPLIDAR_CMD_EXPRESS_SCAN,
    RPLIDAR_CMD_FORCE_SCAN, RPLIDAR_CMD_SCAN,
};
use crate::le_bytes::{read_u16_le, read_u32_le, u16_to_le, u32_to_le};
use crate::types::ScanOptions;
use vstd::prelude::*;

verus! {

/// Little-endian bytes of a `u16`.
pub open spec fn le16_bytes(n: u16) -> Seq<u8> {
    seq![(n % 256) as u8, (n / 256) as u8]
}

/// Little-endian bytes of a `u32`.
pub open spec fn le32_bytes(n: u32) -> Seq<u8> {
    seq![(n % 256) as u8, (n / 256 % 256) as u8, (n / 65536 % 256) as u8, (n / 16777216) as u8]
}

/// What a configuration answer of type `cmd` and payload `d` yields for
/// a query of `config_type`: the bytes after the echoed key, or
/// `OperationFail` where the answer type is wrong or the key is not echoed.
pub open spec fn lidar_conf_result(config_type: u32, cmd: u8, d: Seq<u8>) -> Result<Seq<u8>, DriverError> {
    if cmd != RPLIDAR_ANS_TYPE_GET_LIDAR_CONF {
        Err(DriverError::OperationFail)
    } else if d.len() < 4 || le32_at(d, 0) != config_type {
        Err(DriverError::OperationFail)
    } else {
        Ok(d.subrange(4, d.len() as int))
    }
}

/// A request to send: command and payload.
#[derive(Debug, Clone)]
pub struct Request {
    pub cmd: u8,
    pub data: Vec<u8>,
}

/// Payload of a configuration query: the key, then the parameter bytes.
pub fn lidar_conf_request(config_type: u32, param: &[u8]) -> (r: Vec<u8>)
    ensures
        r@ == le32_bytes(config_type) + param@,
{
    let mut out = u32_to_le(config_type);
    let mut i: usize = 0;
    while i < param.len()
        invariant
            i <= param@.len(),
            out@ == le32_bytes(config_type) + param@.subrange(0, i as int),
        decreases param@.len() - i,
    {
        out.push(param[i]);
        i = i + 1;
        assert(out@ =~= le32_bytes(config_type) + param@.subrange(0, i as int));
    }
    assert(param@.subrange(0, i as int) =~= param@);
    out
}

/// Checks a configuration answer against the key asked for and returns
/// the result bytes after the echoed key.
pub fn check_lidar_conf_answer(config_type: u32, cmd: u8, data: &[u8]) -> (r: Result<Vec<u8>, DriverError>)
    ensures
        match r {
            Ok(v) => lidar_conf_result(config_type, cmd, data@) == Ok::<Seq<u8>, DriverError>(v@),
            Err(e) => lidar_conf_result(config_type, cmd, data@) == Err::<Seq<u8>, DriverError>(e),
        },
{
    if cmd != RPLIDAR_ANS_TYPE_GET_LIDAR_CONF {
        return Err(DriverError::OperationFail);
    }
    if data.len() < 4 || read_u32_le(data, 0) != config_type {
        return Err(DriverError::OperationFail);
    }
    let mut out: Vec<u8> = Vec::new();
    let mut i: usize = 4;
    while i < data.len()
        invariant
            4 <= i <= data@.len(),
            out@ == data@.subrange(4, i as int),
        decreases data@.len() - i,
    {
        out.push(data[i]);
        i = i + 1;
        assert(out@ =~= data@.subrange(4, i as int));
    }
    Ok(out)
}

/// Checks a device information answer: its type, then its size.
pub fn check_device_info_answer(cmd: u8, data: &[u8]) -> (r: Result<RplidarResponseDeviceInfo, DriverError>)
    ensures
        (cmd != RPLIDAR_ANS_TYPE_DEVINFO || data@.len() != DEVICE_INFO_SIZE) <==> r is Err,
        r is Err ==> r->Err_0 == DriverError::OperationFail,
        r is Ok ==> ({
            let v = r->Ok_0;
            &&& v.model == data@[0]
            &&& v.firmware_version == le16_at(data@, 1)
            &&& v.hardware_version == data@[3]
            &&& v.serialnum@ == data@.subrange(4, 20)
        }),
{
    if cmd != RPLIDAR_ANS_TYPE_DEVINFO {
        return Err(DriverError::OperationFail);
    }
    parse_device_info(data)
}

/// Reads a one-byte configuration result; any other size is refused.
pub fn parse_u8_answer(data: &[u8]) -> (r: Result<u8, DriverError>)
    ensures
        data@.len() == 1 ==> r == Ok::<u8, DriverError>(data@[0]),
        data@.len() != 1 ==> r == Err::<u8, DriverError>(DriverError::OperationFail),
{
    if data.len() != 1 {
        return Err(DriverError::OperationFail);
    }
    Ok(data[0])
}

/// Reads a two-byte configuration result; any other size is refused.
pub fn parse_u16_answer(data: &[u8]) -> (r: Result<u16, DriverError>)
    ensures
        data@.len() == 2 ==> r == Ok::<u16, DriverError>(le16_at(data@, 0)),
        data@.len() != 2 ==> r == Err::<u16, DriverError>(DriverError::OperationFail),
{
    if data.len() != 2 {
        return Err(DriverError::OperationFail);
    }
    Ok(read_u16_le(data, 0))
}

/// Reads a four-byte configuration result; any other size is refused.
pub fn parse_u32_answer(data: &[u8]) -> (r: Result<u32, DriverError>)
    ensures
        data@.len() == 4 ==> r == Ok::<u32, DriverError>(le32_at(data@, 0)),
        data@.len() != 4 ==> r == Err::<u32, DriverError>(DriverError::OperationFail),
{
    if data.len() != 4 {
        return Err(DriverError::OperationFail);
    }
    Ok(read_u32_le(data, 0))
}

/// Parameter bytes that name a scan mode in a configuration query.
pub fn scan_mode_param(scan_mode: u16) -> (r: Vec<u8>)
    ensures
        r@ == le16_bytes(scan_mode),
{
    let r = u16_to_le(scan_mode);
    assert(r@ =~= le16_bytes(scan_mode));
    r
}

/// Payload of a motor speed request.
pub fn motor_pwm_payload(pwm: u16) -> (r: Vec<u8>)
    ensures
        r@ == le16_bytes(pwm),
{
    scan_mode_param(pwm)
}

/// The request that starts a scan in `scan_mode`: mode 0 takes the legacy
/// command (forced or not, as the options say, with no payload); any other
/// mode takes an express scan whose payload is the mode, the flags word and
/// a zero parameter word.
pub fn start_scan_request(scan_mode: u16, options: &ScanOptions) -> (r: Request)
    ensures
        scan_mode == 0 ==> r.cmd == (if options.force_scan { RPLIDAR_CMD_FORCE_SCAN } else { RPLIDAR_CMD_SCAN })
            && r.data@.len() == 0,
        scan_mode != 0 ==> r.cmd == RPLIDAR_CMD_EXPRESS_SCAN
            && r.data@ == seq![scan_mode as u8] + le16_bytes(options.options as u16) + seq![0u8, 0u8],
{
    if scan_mode == 0 {
        let cmd = if options.force_scan { RPLIDAR_CMD_FORCE_SCAN } else { RPLIDAR_CMD_SCAN };
        Request { cmd, data: Vec::new() }
    } else {
        let mut data: Vec<u8> = Vec::new();
        data.push(scan_mode as u8);
        let flags = u16_to_le(options.options as u16);
        data.push(flags[0]);
        data.push(flags[1]);
        data.push(0);
        data.push(0);
        assert(data@ =~= seq![scan_mode as u8] + le16_bytes(options.options as u16) + seq![0u8, 0u8]);
        Request { cmd: RPLIDAR_CMD_EXPRESS_SCAN, data }
    }
}

/// The bytes of `le32_bytes(n)` read back give `n`.
pub proof fn lemma_le32_bytes_value(n: u32)
    ensures
        le32_at(le32_bytes(n), 0) == n,
{
    let x = n as int;
    let b0 = x % 256;
    let b1 = x / 256 % 256;
    let b2 = x / 65536 % 256;
    let b3 = x / 16777216;
    assert(x / 65536 == (x / 256) / 256);
    assert(x / 16777216 == (x / 65536) / 256);
    assert(b3 < 256);
    assert(b0 + 256 * b1 + 65536 * b2 + 16777216 * b3 == x);
}

/// Asking for key `t` (with whatever parameter) of a device that echoes `t` and
/// answers `res` yields exactly `res`; where it echoes another key, the
/// query fails with `OperationFail`.
pub proof fn lemma_lidar_conf_round_trip(t: u32, res: Seq<u8>, other: u32)
    requires
        other != t,
    ensures
        lidar_conf_result(t, RPLIDAR_ANS_TYPE_GET_LIDAR_CONF, le32_bytes(t) + res) == Ok::<Seq<u8>, DriverError>(res),
        lidar_conf_result(t, RPLIDAR_ANS_TYPE_GET_LIDAR_CONF, le32_bytes(other) + res) == Err::<Seq<u8>, DriverError>(DriverError::OperationFail),
{
    let d = le32_bytes(t) + res;
    assert(d.subrange(4, d.len() as int) =~= res);
    lemma_le32_bytes_value(t);
    lemma_le32_bytes_value(other);
    assert(le32_at(d, 0) == le32_at(le32_bytes(t), 0));
    let e = le32_bytes(other) + res;
    assert(le32_at(e, 0) == le32_at(le32_bytes(other), 0));
}

/// `b` without its leading NUL bytes.
pub open spec fn trim_leading_nul(b: Seq<u8>) -> Seq<u8>
    decreases b.len(),
{
    if b.len() > 0 && b[0] == 0 {
        trim_leading_nul(b.drop_first())
    } else {
        b
    }
}

/// `b` without its trailing NUL bytes.
pub open spec fn trim_trailing_nul(b: Seq<u8>) -> Seq<u8>
    decreases b.len(),
{
    if b.len() > 0 && b.last() == 0 {
        trim_trailing_nul(b.drop_last())
    } else {
        b
    }
}

/// `b` without NUL bytes at either end.
pub open spec fn trim_nul(b: Seq<u8>) -> Seq<u8> {
    trim_trailing_nul(trim_leading_nul(b))
}

/// The text that bytes `b` encode as UTF-8, where they are valid UTF-8.
pub uninterp spec fn utf8_decode(b: Seq<u8>) -> Option<Seq<char>>;

/// Relies on `String::from_utf8`: the text that the bytes encode where they
/// are valid UTF-8, and an error otherwise.
#[verifier::external_body]
fn string_from_utf8(b: Vec<u8>) -> (r: Option<String>)
    ensures
        r is Some <==> utf8_decode(b@) is Some,
        r is Some ==> r->Some_0@ == utf8_decode(b@)->Some_0,
{
    String::from_utf8(b).ok()
}

/// Copies `b` without NUL bytes at either end.
pub fn trim_nul_bytes(b: &[u8]) -> (r: Vec<u8>)
    ensures
        r@ == trim_nul(b@),
{
    let mut lo: usize = 0;
    assert(b@.subrange(0, b@.len() as int) =~= b@);
    while lo < b.len() && b[lo] == 0
        invariant
            lo <= b@.len(),
            trim_leading_nul(b@) == trim_leading_nul(b@.subrange(lo as int, b@.len() as int)),
        decreases b@.len() - lo,
    {
        let ghost s = b@.subrange(lo as int, b@.len() as int);
        assert(s.drop_first() =~= b@.subrange(lo + 1, b@.len() as int));
        lo = lo + 1;
    }
    let ghost lead = b@.subrange(lo as int, b@.len() as int);
    assert(trim_leading_nul(b@) == lead);
    let mut hi: usize = b.len();
    while hi > lo && b[hi - 1] == 0
        invariant
            lo <= hi <= b@.len(),
            lead == b@.subrange(lo as int, b@.len() as int),
            trim_trailing_nul(lead) == trim_trailing_nul(b@.subrange(lo as int, hi as int)),
        decreases hi - lo,
    {
        let ghost s = b@.subrange(lo as int, hi as int);
        assert(s.drop_last() =~= b@.subrange(lo as int, hi - 1));
        hi = hi - 1;
    }
    let mut out: Vec<u8> = Vec::new();
    let mut i: usize = lo;
    while i < hi
        invariant
            lo <= i <= hi <= b@.len(),
            out@ == b@.subrange(lo as int, i as int),
        decreases hi - i,
    {
        out.push(b[i]);
        i = i + 1;
        assert(out@ =~= b@.subrange(lo as int, i as int));
    }
    out
}

/// Reads a scan-mode name: NUL padding trimmed from both ends, the rest
/// decoded as UTF-8; bytes that are not valid text are a `ProtocolError`.
pub fn parse_scan_mode_name(data: &[u8]) -> (r: Result<String, DriverError>)
    ensures
        r is Ok <==> utf8_decode(trim_nul(data@)) is Some,
        r is Ok ==> r->Ok_0@ == utf8_decode(trim_nul(data@))->Some_0,
        r is Err ==> r->Err_0 == DriverError::ProtocolError,
{
    let trimmed = trim_nul_bytes(data);
    match string_from_utf8(trimmed) {
        Some(name) => Ok(name),
        None => Err(DriverError::ProtocolError),
    }
}

/// The next scan mode to describe when listing all `count` modes, with
/// `described` of them done: the modes go in ascending order from 0, and
/// the listing ends after the last.
pub fn next_scan_mode_to_list(count: u16, described: usize) -> (r: Option<u16>)
    ensures
        described < count ==> r == Some(described as u16),
        described >= count ==> r is None,
{
    if described < count as usize {
        Some(described as u16)
    } else {
        None
    }
}

} // verus!
