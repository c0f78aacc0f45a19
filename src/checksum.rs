//! Sync markers and the XOR checksum of telemetry payloads.

use vstd::prelude::*;

verus! {

/// Expected high nibble of the first payload byte.
pub const EXP_SYNC_1: u8 = 0xA;

/// Expected high nibble of the second payload byte.
pub const EXP_SYNC_2: u8 = 0x5;

/// Why a telemetry payload was rejected.
#[derive(Debug, Clone, Copy, PartialEq, Eq, Structural)]
pub enum FrameError {
    TooShort,
    SyncMismatch,
    ChecksumMismatch,
}

/// XOR of all bytes of `s`.
pub open spec fn xor_fold(s: Seq<u8>) -> u8
    decreases s.len(),
{
    if s.len() == 0 {
        0
    } else {
        xor_fold(s.drop_last()) ^ s.last()
    }
}

/// The checksum carried in the low nibbles of the two header bytes.
pub open spec fn received_checksum(b0: u8, b1: u8) -> u8 {
    (b0 & 0xf) | ((b1 << 4u8) as u8)
}

/// The outcome of validating payload `d`.
pub open spec fn frame_check(d: Seq<u8>) -> Result<(), FrameError> {
    if d.len() < 2 {
        Err(FrameError::TooShort)
    } else if (d[0] >> 4u8) != EXP_SYNC_1 || (d[1] >> 4u8) != EXP_SYNC_2 {
        Err(FrameError::SyncMismatch)
    } else if xor_fold(d.subrange(2, d.len() as int)) != received_checksum(d[0], d[1]) {
        Err(FrameError::ChecksumMismatch)
    } else {
        Ok(())
    }
}

/// XOR of `data[start..]`.
pub fn checksum_from(data: &[u8], start: usize) -> (r: u8)
    requires
        start <= data@.len(),
    ensures
        r == xor_fold(data@.subrange(start as int, data@.len() as int)),
{
    let mut acc: u8 = 0;
    let mut i: usize = start;
    while i < data.len()
        invariant
            start <= i <= data@.len(),
            acc == xor_fold(data@.subrange(start as int, i as int)),
        decreases data@.len() - i,
    {
        proof {
            let s = data@.subrange(start as int, i as int + 1);
            assert(s.drop_last() =~= data@.subrange(start as int, i as int));
        }
        acc = acc ^ data[i];
        i = i + 1;
    }
    acc
}

/// Checks the sync markers and the checksum of a telemetry payload.
pub fn check_sync_and_checksum(data: &[u8]) -> (r: Result<(), FrameError>)
    ensures
        r == frame_check(data@),
{
    if data.len() < 2 {
        return Err(FrameError::TooShort);
    }
    if (data[0] >> 4u8) != EXP_SYNC_1 || (data[1] >> 4u8) != EXP_SYNC_2 {
        return Err(FrameError::SyncMismatch);
    }
    let recv: u8 = (data[0] & 0xf) | ((data[1] << 4u8) as u8);
    if checksum_from(data, 2) != recv {
        Err(FrameError::ChecksumMismatch)
    } else {
        Ok(())
    }
}

/// Changing the byte at `i` to `v` changes the XOR by `s[i] ^ v`.
pub proof fn lemma_xor_fold_update(s: Seq<u8>, i: int, v: u8)
    requires
        0 <= i < s.len(),
    ensures
        xor_fold(s.update(i, v)) == xor_fold(s) ^ s[i] ^ v,
    decreases s.len(),
{
    let t = s.update(i, v);
    if i == s.len() - 1 {
        assert(t.drop_last() =~= s.drop_last());
        let x = xor_fold(s.drop_last());
        let a = s[i];
        assert((x ^ v) == (x ^ a) ^ a ^ v) by (bit_vector);
    } else {
        assert(t.drop_last() =~= s.drop_last().update(i, v));
        lemma_xor_fold_update(s.drop_last(), i, v);
        let y = xor_fold(s.drop_last());
        let a = s[i];
        let l = s.last();
        assert((y ^ a ^ v) ^ l == (y ^ l) ^ a ^ v) by (bit_vector);
    }
}

/// Replacing any one checked byte (offset 2 or more) by a different value
/// changes the checksum, and a payload under two bytes is always too short.
pub proof fn lemma_single_byte_change_detected(d: Seq<u8>, i: int, v: u8)
    requires
        2 <= i < d.len(),
        v != d[i],
    ensures
        xor_fold(d.update(i, v).subrange(2, d.len() as int))
            != xor_fold(d.subrange(2, d.len() as int)),
        forall|e: Seq<u8>| e.len() < 2 ==> #[trigger] frame_check(e) == Err::<(), FrameError>(FrameError::TooShort),
{
    let s = d.subrange(2, d.len() as int);
    assert(d.update(i, v).subrange(2, d.len() as int) =~= s.update(i - 2, v));
    lemma_xor_fold_update(s, i - 2, v);
    let x = xor_fold(s);
    let a = s[i - 2];
    assert(a != v ==> (x ^ a ^ v) != x) by (bit_vector);
}

} // verus!
