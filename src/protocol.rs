//! Wire framing: request frames out, answer frames in.

use crate::device::ScanFrame;
use crate::checksum::xor_fold;
use crate::le_bytes::{le_u32_spec, read_u32_le};
use vstd::prelude::*;

verus! {

/// First byte of every request and answer descriptor.
pub const RPLIDAR_CMD_SYNC_BYTE: u8 = 0xA5;
/// Second byte of an answer descriptor.
pub const RPLIDAR_ANS_SYNC_BYTE2: u8 = 0x5A;
/// Size of an answer descriptor.
pub const RPLIDAR_ANS_HEADER_SIZE: usize = 7;
/// Largest request payload.
pub const RPLIDAR_MAX_PAYLOAD: usize = 255;

/// The bytes of a request: sync byte and command, then, where there is a
/// payload, its length, the payload, and the XOR of everything before.
pub open spec fn request_bytes(cmd: u8, payload: Seq<u8>) -> Seq<u8> {
    if payload.len() == 0 {
        seq![RPLIDAR_CMD_SYNC_BYTE, cmd]
    } else {
        let head = seq![RPLIDAR_CMD_SYNC_BYTE, cmd, payload.len() as u8] + payload;
        head.push(xor_fold(head))
    }
}

/// Encodes a request frame.
pub fn encode_request(cmd: u8, payload: &[u8]) -> (r: Vec<u8>)
    requires
        payload@.len() <= RPLIDAR_MAX_PAYLOAD,
    ensures
        r@ == request_bytes(cmd, payload@),
{
    let mut out: Vec<u8> = Vec::new();
    out.push(RPLIDAR_CMD_SYNC_BYTE);
    out.push(cmd);
    if payload.len() == 0 {
        assert(out@ =~= request_bytes(cmd, payload@));
        return out;
    }
    out.push(payload.len() as u8);
    let mut cs: u8 = RPLIDAR_CMD_SYNC_BYTE ^ cmd ^ (payload.len() as u8);
    proof {
        let a = RPLIDAR_CMD_SYNC_BYTE;
        let n = payload@.len() as u8;
        let h = seq![a, cmd, n];
        let h1 = seq![a, cmd];
        let h0 = seq![a];
        assert(h.drop_last() =~= h1);
        assert(h1.drop_last() =~= h0);
        assert(h0.drop_last() =~= Seq::<u8>::empty());
        assert(xor_fold(Seq::<u8>::empty()) == 0);
        assert(xor_fold(h0) == 0 ^ a);
        assert(xor_fold(h1) == xor_fold(h0) ^ cmd);
        assert(xor_fold(h) == xor_fold(h1) ^ n);
        assert(((0u8 ^ a) ^ cmd) ^ n == (a ^ cmd) ^ n) by (bit_vector);
        assert(out@ =~= h);
        assert(payload@.subrange(0, 0) =~= Seq::<u8>::empty());
        assert(h + payload@.subrange(0, 0) =~= h);
    }
    let mut i: usize = 0;
    while i < payload.len()
        invariant
            i <= payload@.len() <= RPLIDAR_MAX_PAYLOAD,
            payload@.len() > 0,
            out@ == seq![RPLIDAR_CMD_SYNC_BYTE, cmd, payload@.len() as u8] + payload@.subrange(0, i as int),
            cs == xor_fold(out@),
        decreases payload@.len() - i,
    {
        let ghost before = out@;
        cs = cs ^ payload[i];
        out.push(payload[i]);
        proof {
            assert(out@.drop_last() =~= before);
            assert(out@ =~= seq![RPLIDAR_CMD_SYNC_BYTE, cmd, payload@.len() as u8] + payload@.subrange(0, i + 1));
        }
        i = i + 1;
    }
    assert(payload@.subrange(0, i as int) =~= payload@);
    out.push(cs);
    out
}

/// Length field of an answer descriptor (the low 30 bits).
pub open spec fn descriptor_len(b2: u8, b3: u8, b4: u8, b5: u8) -> int {
    le_u32_spec(b2, b3, b4, b5) as int % 0x4000_0000
}

/// Whether the answer is a stream of frames rather than a single one (the
/// top two bits of the length word).
pub open spec fn descriptor_multi(b5: u8) -> bool {
    b5 / 64 == 1
}

/// Decoder of the answer stream. Outside a response it looks for a
/// descriptor; inside, it cuts frames of the announced length.
pub struct ResponseDecoder {
    pub in_response: bool,
    pub multi: bool,
    pub ans_type: u8,
    pub ans_len: usize,
}

impl ResponseDecoder {
    pub fn new() -> (r: ResponseDecoder)
        ensures
            !r.in_response,
    {
        ResponseDecoder { in_response: false, multi: false, ans_type: 0, ans_len: 0 }
    }

    /// Forgets any response in progress.
    pub fn reset(&mut self)
        ensures
            !final(self).in_response,
    {
        self.in_response = false;
    }

    /// Takes what it can from the front of `buf`: the number of bytes used
    /// and the frame completed, if any. Outside a response, a byte that
    /// cannot start a descriptor is skipped; a full descriptor is taken and
    /// opens a response. Inside one, a frame of the announced length is
    /// cut; a single answer then closes the response. With too few bytes,
    /// nothing is used.
    pub fn decode(&mut self, buf: &[u8]) -> (r: (usize, Option<ScanFrame>))
        ensures
            r.0 <= buf@.len(),
            !old(self).in_response ==> {
                &&& r.1 is None
                &&& buf@.len() == 0 ==> r.0 == 0 && *final(self) == *old(self)
                &&& buf@.len() >= 1 && buf@[0] == RPLIDAR_CMD_SYNC_BYTE && (buf@.len() < 2 || buf@[1] == RPLIDAR_ANS_SYNC_BYTE2)
                    && buf@.len() < RPLIDAR_ANS_HEADER_SIZE ==> r.0 == 0 && *final(self) == *old(self)
                &&& buf@.len() >= 1 && buf@[0] != RPLIDAR_CMD_SYNC_BYTE ==> r.0 == 1 && r.1 is None
                    && !final(self).in_response
                &&& buf@.len() >= 2 && buf@[0] == RPLIDAR_CMD_SYNC_BYTE && buf@[1] != RPLIDAR_ANS_SYNC_BYTE2
                    ==> r.0 == 1 && r.1 is None && !final(self).in_response
                &&& buf@.len() >= RPLIDAR_ANS_HEADER_SIZE && buf@[0] == RPLIDAR_CMD_SYNC_BYTE
                    && buf@[1] == RPLIDAR_ANS_SYNC_BYTE2 ==> r.0 == RPLIDAR_ANS_HEADER_SIZE && r.1 is None
                    && final(self).in_response
                    && final(self).ans_len == descriptor_len(buf@[2], buf@[3], buf@[4], buf@[5])
                    && final(self).multi == descriptor_multi(buf@[5])
                    && final(self).ans_type == buf@[6]
            },
            old(self).in_response ==> if buf@.len() >= old(self).ans_len {
                &&& r.0 == old(self).ans_len
                &&& r.1 == Some(ScanFrame { cmd: old(self).ans_type, data: r.1->Some_0.data })
                &&& r.1->Some_0.data@ == buf@.subrange(0, old(self).ans_len as int)
                &&& final(self).in_response == old(self).multi
                &&& final(self).ans_len == old(self).ans_len
                &&& final(self).ans_type == old(self).ans_type
                &&& final(self).multi == old(self).multi
            } else {
                r.0 == 0 && r.1 is None && *final(self) == *old(self)
            },
    {
        if !self.in_response {
            if buf.len() == 0 {
                return (0, None);
            }
            if buf[0] != RPLIDAR_CMD_SYNC_BYTE {
                return (1, None);
            }
            if buf.len() < 2 {
                return (0, None);
            }
            if buf[1] != RPLIDAR_ANS_SYNC_BYTE2 {
                return (1, None);
            }
            if buf.len() < RPLIDAR_ANS_HEADER_SIZE {
                return (0, None);
            }
            let word = read_u32_le(buf, 2);
            self.ans_len = (word % 0x4000_0000) as usize;
            self.multi = buf[5] / 64 == 1;
            self.ans_type = buf[6];
            self.in_response = true;
            return (RPLIDAR_ANS_HEADER_SIZE, None);
        }
        if buf.len() < self.ans_len {
            return (0, None);
        }
        let mut data: Vec<u8> = Vec::new();
        let mut i: usize = 0;
        while i < self.ans_len
            invariant
                i <= self.ans_len <= buf@.len(),
                data@ == buf@.subrange(0, i as int),
            decreases self.ans_len - i,
        {
            data.push(buf[i]);
            i = i + 1;
            assert(data@ =~= buf@.subrange(0, i as int));
        }
        self.in_response = self.multi;
        (self.ans_len, Some(ScanFrame { cmd: self.ans_type, data }))
    }
}

} // verus!
