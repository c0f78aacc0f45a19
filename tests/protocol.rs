use rplidar_drv::protocol::{encode_request, ResponseDecoder};

#[test]
fn request_without_payload() {
    assert_eq!(encode_request(0x25, &[]), vec![0xA5, 0x25]);
}

#[test]
fn request_with_payload_carries_checksum() {
    let r = encode_request(0xF0, &[0x94, 0x02]);
    assert_eq!(r, vec![0xA5, 0xF0, 0x02, 0x94, 0x02, 0xA5 ^ 0xF0 ^ 0x02 ^ 0x94 ^ 0x02]);
}

#[test]
fn decoder_cuts_single_answer() {
    let mut d = ResponseDecoder::new();
    let bytes = vec![0xA5, 0x5A, 0x03, 0x00, 0x00, 0x00, 0x06, 0x00, 0x00, 0x00];
    assert_eq!(d.decode(&bytes[..5]).0, 0);
    let (used, frame) = d.decode(&bytes);
    assert_eq!(used, 7);
    assert!(frame.is_none());
    assert_eq!(d.decode(&bytes[7..9]).0, 0);
    let (used, frame) = d.decode(&bytes[7..]);
    assert_eq!(used, 3);
    let f = frame.unwrap();
    assert_eq!(f.cmd, 0x06);
    assert_eq!(f.data, vec![0, 0, 0]);
    assert!(!d.in_response);
}

#[test]
fn decoder_streams_multi_answer() {
    let mut d = ResponseDecoder::new();
    // length 5, multiple-answer mode, legacy measurement
    let header = vec![0xA5, 0x5A, 0x05, 0x00, 0x00, 0x40, 0x81];
    assert_eq!(d.decode(&header).0, 7);
    for k in 0..3u8 {
        let (used, frame) = d.decode(&[k, 1, 2, 3, 4, 9]);
        assert_eq!(used, 5);
        let f = frame.unwrap();
        assert_eq!(f.cmd, 0x81);
        assert_eq!(f.data, vec![k, 1, 2, 3, 4]);
    }
    assert!(d.in_response);
    d.reset();
    assert!(!d.in_response);
}

#[test]
fn decoder_skips_noise() {
    let mut d = ResponseDecoder::new();
    assert_eq!(d.decode(&[0x00, 0xA5]).0, 1);
    assert_eq!(d.decode(&[0xA5, 0x00]).0, 1);
    assert_eq!(d.decode(&[]).0, 0);
}
