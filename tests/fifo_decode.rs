use bmi160::{decode, decode_with_carry, encode_frame, read_i16, read_u24, DecodeError, FifoConfig, Frame};

fn header_config() -> FifoConfig {
    FifoConfig {
        header_mode: true,
        accel: true,
        gyro: true,
        mag: true,
        time_on_flush: true,
        accel_downs: 0,
        gyro_downs: 0,
    }
}

fn headerless(accel: bool, gyro: bool, mag: bool) -> FifoConfig {
    FifoConfig {
        header_mode: false,
        accel,
        gyro,
        mag,
        time_on_flush: false,
        accel_downs: 0,
        gyro_downs: 0,
    }
}

fn sample_frames() -> Vec<Frame> {
    vec![
        Frame::Accel { x: 1, y: -2, z: 300 },
        Frame::Gyro { x: -32768, y: 32767, z: 0 },
        Frame::Mag { x: -5, y: 6, z: -7, rhall: 65535 },
        Frame::Skip { count: 9 },
        Frame::ConfigChanged,
        Frame::SensorTime { ticks: 0x00AB_CDEF },
    ]
}

#[test]
fn empty_marker_gives_nothing() {
    let r = decode(&[0x80], &header_config());
    assert!(r.frames.is_empty());
    assert!(r.leftover.is_empty());
    assert!(r.error.is_none());
    assert!(r.empty_marker);
    assert_eq!(r.consumed, 1);
}

#[test]
fn empty_marker_stops_before_padding() {
    let r = decode(&[0x48, 0x80, 0x84, 0x01], &header_config());
    assert_eq!(r.frames, vec![Frame::ConfigChanged]);
    assert!(r.leftover.is_empty());
    assert!(r.empty_marker);
    assert_eq!(r.consumed, 4);
}

#[test]
fn sensor_time_frame() {
    let r = decode(&[0x44, 0x01, 0x02, 0x03], &header_config());
    assert_eq!(r.frames, vec![Frame::SensorTime { ticks: 0x030201 }]);
    assert!(r.leftover.is_empty());
    assert!(r.error.is_none());
    assert_eq!(r.consumed, 4);
}

#[test]
fn headerless_accel_only() {
    let r = decode(&[0x10, 0x00, 0x20, 0x00, 0x30, 0x00], &headerless(true, false, false));
    assert_eq!(r.frames, vec![Frame::Accel { x: 16, y: 32, z: 48 }]);
    assert!(r.leftover.is_empty());
    assert!(r.error.is_none());
}

#[test]
fn headerless_all_streams_in_order() {
    let mut bytes: Vec<u8> = Vec::new();
    bytes.extend_from_slice(&[1, 0, 2, 0, 3, 0, 4, 0]);
    bytes.extend_from_slice(&[5, 0, 6, 0, 7, 0]);
    bytes.extend_from_slice(&[8, 0, 9, 0, 10, 0]);
    bytes.extend_from_slice(&[0xFF, 0xFF]);
    let r = decode(&bytes, &headerless(true, true, true));
    assert_eq!(
        r.frames,
        vec![
            Frame::Mag { x: 1, y: 2, z: 3, rhall: 4 },
            Frame::Gyro { x: 5, y: 6, z: 7 },
            Frame::Accel { x: 8, y: 9, z: 10 },
        ]
    );
    assert_eq!(r.leftover, vec![0xFF, 0xFF]);
    assert_eq!(r.consumed, 20);
}

#[test]
fn headerless_without_streams_is_refused() {
    let r = decode(&[1, 2, 3], &headerless(false, false, false));
    assert!(r.frames.is_empty());
    assert_eq!(r.error, Some(DecodeError::InvalidConfiguration));
}

#[test]
fn combined_data_frame() {
    let mut bytes: Vec<u8> = vec![0x9C];
    bytes.extend_from_slice(&[1, 0, 2, 0, 3, 0, 0x34, 0x12]);
    bytes.extend_from_slice(&[0xFF, 0xFF, 0, 0x80, 0xFF, 0x7F]);
    bytes.extend_from_slice(&[0x10, 0, 0x20, 0, 0x30, 0]);
    let r = decode(&bytes, &header_config());
    assert_eq!(
        r.frames,
        vec![
            Frame::Mag { x: 1, y: 2, z: 3, rhall: 0x1234 },
            Frame::Gyro { x: -1, y: -32768, z: 32767 },
            Frame::Accel { x: 16, y: 32, z: 48 },
        ]
    );
    assert_eq!(r.consumed, 21);
    assert!(r.leftover.is_empty());
}

#[test]
fn gyro_and_accel_frame() {
    let bytes = [0x8C, 1, 0, 2, 0, 3, 0, 4, 0, 5, 0, 6, 0];
    let r = decode(&bytes, &header_config());
    assert_eq!(r.frames, vec![Frame::Gyro { x: 1, y: 2, z: 3 }, Frame::Accel { x: 4, y: 5, z: 6 }]);
}

#[test]
fn malformed_header_keeps_earlier_frames() {
    let bytes = [0x40, 0x03, 0x85, 0x00, 0x00];
    let r = decode(&bytes, &header_config());
    assert_eq!(r.frames, vec![Frame::Skip { count: 3 }]);
    assert_eq!(r.error, Some(DecodeError::MalformedHeader { offset: 2, byte: 0x85 }));
    assert_eq!(r.consumed, 2);
    assert!(r.leftover.is_empty());
}

#[test]
fn concatenated_frames_decode_in_order() {
    let frames = sample_frames();
    let mut bytes: Vec<u8> = Vec::new();
    for f in frames.iter() {
        bytes.extend_from_slice(&encode_frame(f));
    }
    let r = decode(&bytes, &header_config());
    assert_eq!(r.frames, frames);
    assert_eq!(r.consumed, bytes.len());
    assert!(r.leftover.is_empty());
    assert!(r.error.is_none());
}

#[test]
fn round_trip_each_variant() {
    for f in sample_frames() {
        let bytes = encode_frame(&f);
        let r = decode(&bytes, &header_config());
        assert_eq!(r.frames, vec![f]);
        assert_eq!(r.consumed, bytes.len());
        assert!(r.leftover.is_empty());
    }
}

#[test]
fn encode_exact_bytes() {
    assert_eq!(encode_frame(&Frame::Accel { x: -2, y: 256, z: 1 }), vec![0x84, 0xFE, 0xFF, 0x00, 0x01, 0x01, 0x00]);
    assert_eq!(encode_frame(&Frame::SensorTime { ticks: 0x030201 }), vec![0x44, 0x01, 0x02, 0x03]);
    assert_eq!(encode_frame(&Frame::Skip { count: 7 }), vec![0x40, 7]);
    assert_eq!(encode_frame(&Frame::ConfigChanged), vec![0x48]);
    assert_eq!(
        encode_frame(&Frame::Mag { x: 1, y: 2, z: 3, rhall: 0x0102 }),
        vec![0x90, 1, 0, 2, 0, 3, 0, 0x02, 0x01]
    );
}

#[test]
fn truncated_buffer_leaves_tail() {
    let first = encode_frame(&Frame::Skip { count: 1 });
    let second = encode_frame(&Frame::Gyro { x: 100, y: -100, z: 7 });
    let mut whole: Vec<u8> = first.clone();
    whole.extend_from_slice(&second);
    let cut = first.len() + 3;
    let r = decode(&whole[..cut], &header_config());
    assert_eq!(r.frames, vec![Frame::Skip { count: 1 }]);
    assert_eq!(r.leftover, whole[first.len()..cut].to_vec());
    assert_eq!(r.consumed, first.len());

    let rest = decode_with_carry(&r.leftover, &whole[cut..], &header_config());
    let mut joined = r.frames.clone();
    joined.extend_from_slice(&rest.frames);
    let all = decode(&whole, &header_config());
    assert_eq!(joined, all.frames);
    assert!(rest.leftover.is_empty());
}

#[test]
fn partial_header_only() {
    let r = decode(&[0x44, 0x01], &header_config());
    assert!(r.frames.is_empty());
    assert_eq!(r.leftover, vec![0x44, 0x01]);
    assert_eq!(r.consumed, 0);
}

#[test]
fn empty_buffer() {
    let r = decode(&[], &header_config());
    assert!(r.frames.is_empty());
    assert!(r.leftover.is_empty());
    assert_eq!(r.consumed, 0);
    assert!(!r.empty_marker);
}

#[test]
fn sample_reconstruction() {
    assert_eq!(read_i16(0x00, 0x80), -32768);
    assert_eq!(read_i16(0xFF, 0xFF), -1);
    assert_eq!(read_i16(0x34, 0x12), 0x1234);
    assert_eq!(read_u24(0xFF, 0xFF, 0xFF), 0xFF_FFFF);
}

#[test]
fn headerless_partial_frame_is_leftover() {
    let r = decode(&[1, 2, 3, 4, 5], &headerless(true, false, false));
    assert!(r.frames.is_empty());
    assert_eq!(r.leftover, vec![1, 2, 3, 4, 5]);
    assert_eq!(r.consumed, 0);
}

#[test]
fn carry_is_read_first() {
    let r = decode_with_carry(&[0x10, 0x00, 0x20], &[0x00, 0x30, 0x00], &headerless(true, false, false));
    assert_eq!(r.frames, vec![Frame::Accel { x: 16, y: 32, z: 48 }]);
    assert!(r.leftover.is_empty());
    assert_eq!(r.consumed, 6);
}
