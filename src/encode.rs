use vstd::prelude::*;
use crate::fifo::{
    Frame, HEADER_ACCEL, HEADER_CONFIG_CHANGED, HEADER_GYRO, HEADER_MAG, HEADER_SENSOR_TIME,
    HEADER_SKIP,
};

verus! {

/// The little-endian two's-complement bytes of a signed 16-bit value.
pub open spec fn i16_bytes(v: i16) -> Seq<u8> {
    let u: int = if v < 0 { v as int + 65536 } else { v as int };
    seq![(u % 256) as u8, (u / 256) as u8]
}

/// The little-endian bytes of an unsigned 16-bit value.
pub open spec fn u16_bytes(v: u16) -> Seq<u8> {
    seq![(v as int % 256) as u8, (v as int / 256) as u8]
}

/// A frame that can stand in the stream: the sensor time has 24 bits.
pub open spec fn frame_wf(f: Frame) -> bool {
    match f {
        Frame::SensorTime { ticks } => ticks < 0x100_0000,
        _ => true,
    }
}

/// The bytes of a frame in header mode: its header, then its payload.
pub open spec fn encode_spec(f: Frame) -> Seq<u8> {
    match f {
        Frame::Accel { x, y, z } => seq![HEADER_ACCEL] + i16_bytes(x) + i16_bytes(y) + i16_bytes(z),
        Frame::Gyro { x, y, z } => seq![HEADER_GYRO] + i16_bytes(x) + i16_bytes(y) + i16_bytes(z),
        Frame::Mag { x, y, z, rhall } => seq![HEADER_MAG] + i16_bytes(x) + i16_bytes(y)
            + i16_bytes(z) + u16_bytes(rhall),
        Frame::SensorTime { ticks } => seq![
            HEADER_SENSOR_TIME,
            (ticks as int % 256) as u8,
            (ticks as int / 256 % 256) as u8,
            (ticks as int / 65536 % 256) as u8,
        ],
        Frame::Skip { count } => seq![HEADER_SKIP, count],
        Frame::ConfigChanged => seq![HEADER_CONFIG_CHANGED],
    }
}

/// The bytes of a sequence of frames, one after the other.
pub open spec fn encode_all(fs: Seq<Frame>) -> Seq<u8>
    decreases fs.len(),
{
    if fs.len() == 0 {
        Seq::empty()
    } else {
        encode_spec(fs[0]) + encode_all(fs.subrange(1, fs.len() as int))
    }
}

fn push_i16(out: &mut Vec<u8>, v: i16)
    ensures
        final(out)@ == old(out)@ + i16_bytes(v),
{
    let u: i32 = if v < 0 { v as i32 + 65536 } else { v as i32 };
    out.push((u % 256) as u8);
    out.push((u / 256) as u8);
    assert(final(out)@ =~= old(out)@ + i16_bytes(v));
}

/// Writes a frame as the sensor stores it in header mode.
pub fn encode_frame(f: &Frame) -> (r: Vec<u8>)
    requires
        frame_wf(*f),
    ensures
        r@ == encode_spec(*f),
{
    let mut out: Vec<u8> = Vec::new();
    match *f {
        Frame::Accel { x, y, z } => {
            out.push(HEADER_ACCEL);
            push_i16(&mut out, x);
            push_i16(&mut out, y);
            push_i16(&mut out, z);
        },
        Frame::Gyro { x, y, z } => {
            out.push(HEADER_GYRO);
            push_i16(&mut out, x);
            push_i16(&mut out, y);
            push_i16(&mut out, z);
        },
        Frame::Mag { x, y, z, rhall } => {
            out.push(HEADER_MAG);
            push_i16(&mut out, x);
            push_i16(&mut out, y);
            push_i16(&mut out, z);
            out.push((rhall % 256) as u8);
            out.push((rhall / 256) as u8);
        },
        Frame::SensorTime { ticks } => {
            out.push(HEADER_SENSOR_TIME);
            out.push((ticks % 256) as u8);
            out.push((ticks / 256 % 256) as u8);
            out.push((ticks / 65536 % 256) as u8);
        },
        Frame::Skip { count } => {
            out.push(HEADER_SKIP);
            out.push(count);
        },
        Frame::ConfigChanged => {
            out.push(HEADER_CONFIG_CHANGED);
        },
    }
    assert(out@ =~= encode_spec(*f));
    out
}

} // verus!
