use vstd::prelude::*;
use crate::encode::{encode_all, encode_spec, frame_wf, i16_bytes, u16_bytes};
use crate::fifo::{
    decode_from, decode_spec, header_step, le_i16, le_u16, le_u24, prepend, step, DecodeOutcome,
    FifoConfig, Frame, Step,
};

verus! {

/// The two bytes of a signed 16-bit value read back as that value.
pub proof fn lemma_i16_bytes(v: i16)
    ensures
        le_i16(i16_bytes(v)[0], i16_bytes(v)[1]) as i16 == v,
        i16_bytes(v).len() == 2,
{
}

/// The two bytes of an unsigned 16-bit value read back as that value.
pub proof fn lemma_u16_bytes(v: u16)
    ensures
        le_u16(u16_bytes(v)[0], u16_bytes(v)[1]) as u16 == v,
        u16_bytes(v).len() == 2,
{
}

/// In header mode the front of a buffer that starts with an encoded frame reads
/// as that frame, whatever follows it.
proof fn lemma_step_encoded(f: Frame, rest: Seq<u8>, cfg: FifoConfig)
    requires
        cfg.header_mode,
        frame_wf(f),
    ensures
        encode_spec(f).len() > 0,
        step(encode_spec(f) + rest, cfg) == Step::Got(seq![f], encode_spec(f).len()),
{
    reveal(step);
    let b = encode_spec(f) + rest;
    match f {
        Frame::Accel { x, y, z } => {
            lemma_i16_bytes(x);
            lemma_i16_bytes(y);
            lemma_i16_bytes(z);
            assert(header_step(b) == Step::Got(seq![f], 7));
        },
        Frame::Gyro { x, y, z } => {
            lemma_i16_bytes(x);
            lemma_i16_bytes(y);
            lemma_i16_bytes(z);
            assert(header_step(b) == Step::Got(seq![f], 7));
        },
        Frame::Mag { x, y, z, rhall } => {
            lemma_i16_bytes(x);
            lemma_i16_bytes(y);
            lemma_i16_bytes(z);
            lemma_u16_bytes(rhall);
            assert(header_step(b) == Step::Got(seq![f], 9));
        },
        Frame::SensorTime { ticks } => {
            let t = ticks as int;
            assert(le_u24((t % 256) as u8, (t / 256 % 256) as u8, (t / 65536 % 256) as u8) == t);
            assert(header_step(b) == Step::Got(seq![f], 4));
        },
        Frame::Skip { count } => {
            assert(header_step(b) == Step::Got(seq![f], 2));
        },
        Frame::ConfigChanged => {
            assert(header_step(b) == Step::Got(seq![f], 1));
        },
    }
}

/// Decoding an encoded frame followed by other bytes gives the frame, then what
/// the other bytes give.
pub proof fn lemma_decode_frame_then(f: Frame, rest: Seq<u8>, cfg: FifoConfig, base: nat)
    requires
        cfg.header_mode,
        frame_wf(f),
    ensures
        decode_from(encode_spec(f) + rest, cfg, base) == prepend(
            seq![f],
            decode_from(rest, cfg, base + encode_spec(f).len()),
        ),
{
    let e = encode_spec(f);
    lemma_step_encoded(f, rest, cfg);
    assert((e + rest).subrange(e.len() as int, (e + rest).len() as int) =~= rest);
}

/// Encoding a frame in header mode and decoding the bytes gives back exactly
/// that frame, with every byte consumed and nothing left over.
pub proof fn lemma_round_trip(f: Frame, cfg: FifoConfig)
    requires
        cfg.header_mode,
        frame_wf(f),
    ensures
        decode_spec(encode_spec(f), cfg) == (DecodeOutcome {
            frames: seq![f],
            consumed: encode_spec(f).len(),
            leftover: Seq::empty(),
            error: None,
            empty_marker: false,
        }),
{
    lemma_decode_frame_then(f, Seq::empty(), cfg, 0);
    assert(encode_spec(f) + Seq::<u8>::empty() =~= encode_spec(f));
    assert(seq![f] + Seq::<Frame>::empty() =~= seq![f]);
}

/// Decoding the concatenated encodings of a sequence of frames in header mode
/// gives back exactly those frames, in order, consuming every byte and leaving
/// nothing over.
pub proof fn lemma_decode_concat(fs: Seq<Frame>, cfg: FifoConfig, base: nat)
    requires
        cfg.header_mode,
        forall|i: int| 0 <= i < fs.len() ==> frame_wf(#[trigger] fs[i]),
    ensures
        decode_from(encode_all(fs), cfg, base) == (DecodeOutcome {
            frames: fs,
            consumed: base + encode_all(fs).len(),
            leftover: Seq::empty(),
            error: None,
            empty_marker: false,
        }),
    decreases fs.len(),
{
    if fs.len() == 0 {
        assert(fs =~= Seq::<Frame>::empty());
    } else {
        let tl = fs.subrange(1, fs.len() as int);
        assert forall|i: int| 0 <= i < tl.len() implies frame_wf(#[trigger] tl[i]) by {
            assert(tl[i] == fs[i + 1]);
        }
        assert(frame_wf(fs[0]));
        lemma_decode_frame_then(fs[0], encode_all(tl), cfg, base);
        lemma_decode_concat(tl, cfg, base + encode_spec(fs[0]).len());
        assert(seq![fs[0]] + tl =~= fs);
    }
}

/// Whether the front of a buffer reads as a complete frame does not depend on
/// the bytes after that frame.
proof fn lemma_step_extend(x: Seq<u8>, y: Seq<u8>, cfg: FifoConfig)
    requires
        x.len() > 0,
        step(x, cfg) is Got,
    ensures
        step(x + y, cfg) == step(x, cfg),
{
    reveal(step);
    let b = x + y;
    assert(b[0] == x[0]);
    if x.len() >= 2 {
        assert(b[1] == x[1]);
    }
    if x.len() >= 4 {
        assert(b[2] == x[2] && b[3] == x[3]);
    }
    assert forall|i: int| 0 <= i < x.len() implies b[i] == x[i] by {}
}

/// A complete frame has at least one byte and lies within the buffer.
proof fn lemma_step_len(b: Seq<u8>, cfg: FifoConfig)
    requires
        b.len() > 0,
    ensures
        step(b, cfg) is Got ==> 0 < step(b, cfg)->Got_1 <= b.len(),
{
    reveal(step);
}

/// Decoding a stream in two reads, where the leftover of the first read is put
/// in front of the second, gives the same frames in the same order, and the
/// same end, as decoding the whole stream at once. This holds whenever the
/// first read ended neither at a malformed header nor at the empty marker.
pub proof fn lemma_resume(x: Seq<u8>, y: Seq<u8>, cfg: FifoConfig, base: nat)
    requires
        decode_from(x, cfg, base).error is None,
        !decode_from(x, cfg, base).empty_marker,
    ensures
        ({
            let first = decode_from(x, cfg, base);
            decode_from(x + y, cfg, base) == prepend(
                first.frames,
                decode_from(first.leftover + y, cfg, first.consumed),
            )
        }),
    decreases x.len(),
{
    let first = decode_from(x, cfg, base);
    if x.len() == 0 {
        assert(x + y =~= y);
        assert(first.leftover + y =~= y);
        assert(Seq::<Frame>::empty() + decode_from(y, cfg, base).frames =~= decode_from(y, cfg, base).frames);
    } else {
        match step(x, cfg) {
            Step::Got(fs, n) => {
                lemma_step_len(x, cfg);
                lemma_step_extend(x, y, cfg);
                let tail = x.subrange(n as int, x.len() as int);
                assert((x + y).subrange(n as int, (x + y).len() as int) =~= tail + y);
                lemma_resume(tail, y, cfg, base + n);
                let second = decode_from(tail, cfg, base + n);
                let last = decode_from(second.leftover + y, cfg, second.consumed);
                assert(fs + (second.frames + last.frames) =~= (fs + second.frames) + last.frames);
            },
            Step::Partial => {
                assert(Seq::<Frame>::empty() + decode_from(x + y, cfg, base).frames =~= decode_from(x + y, cfg, base).frames);
            },
            _ => {},
        }
    }
}

/// A proper, nonempty prefix of an encoded frame reads as an incomplete frame.
proof fn lemma_step_truncated(g: Frame, k: int, cfg: FifoConfig)
    requires
        cfg.header_mode,
        0 < k < encode_spec(g).len(),
    ensures
        step(encode_spec(g).subrange(0, k), cfg) is Partial,
{
    reveal(step);
    let t = encode_spec(g).subrange(0, k);
    assert(t[0] == encode_spec(g)[0]);
}

/// A buffer cut in the middle of a frame decodes to the complete frames before
/// the cut, and the bytes after them are left over, exactly.
pub proof fn lemma_truncated(fs: Seq<Frame>, g: Frame, k: int, cfg: FifoConfig)
    requires
        cfg.header_mode,
        forall|i: int| 0 <= i < fs.len() ==> frame_wf(#[trigger] fs[i]),
        0 < k < encode_spec(g).len(),
    ensures
        decode_spec(encode_all(fs) + encode_spec(g).subrange(0, k), cfg) == (DecodeOutcome {
            frames: fs,
            consumed: encode_all(fs).len(),
            leftover: encode_spec(g).subrange(0, k),
            error: None,
            empty_marker: false,
        }),
{
    let x = encode_all(fs);
    let t = encode_spec(g).subrange(0, k);
    lemma_decode_concat(fs, cfg, 0);
    lemma_resume(x, t, cfg, 0);
    assert(Seq::<u8>::empty() + t =~= t);
    lemma_step_truncated(g, k, cfg);
    assert(fs + Seq::<Frame>::empty() =~= fs);
}

} // verus!
