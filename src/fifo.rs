use vstd::prelude::*;

verus! {

/// Header of a regular data frame that holds an accelerometer sample only.
pub const HEADER_ACCEL: u8 = 0x84;

/// Header of a regular data frame that holds a gyroscope sample only.
pub const HEADER_GYRO: u8 = 0x88;

/// Header of a regular data frame that holds a magnetometer sample only.
pub const HEADER_MAG: u8 = 0x90;

/// Header of a skip frame: the next byte counts the frames that were dropped.
pub const HEADER_SKIP: u8 = 0x40;

/// Header of a sensor-time frame: the next three bytes are the tick count.
pub const HEADER_SENSOR_TIME: u8 = 0x44;

/// Header of the marker that the input configuration changed.
pub const HEADER_CONFIG_CHANGED: u8 = 0x48;

/// Header that marks an empty FIFO: what follows is padding.
pub const HEADER_EMPTY: u8 = 0x80;

/// Bytes of a magnetometer sample: three axes and the hall resistance.
pub const MAG_LEN: usize = 8;

/// Bytes of a gyroscope or accelerometer sample: three axes.
pub const AXES_LEN: usize = 6;

/// How the FIFO is configured: which streams it stores and in which format.
#[derive(Clone, Copy, Debug, PartialEq, Eq, Structural)]
pub struct FifoConfig {
    /// Each frame starts with a header byte.
    pub header_mode: bool,
    /// Accelerometer samples are stored.
    pub accel: bool,
    /// Gyroscope samples are stored.
    pub gyro: bool,
    /// Magnetometer samples are stored.
    pub mag: bool,
    /// A sensor-time frame is appended when the FIFO is read empty.
    pub time_on_flush: bool,
    /// Accelerometer downsampling: every 2^n-th sample is stored (0 to 7).
    pub accel_downs: u8,
    /// Gyroscope downsampling: every 2^n-th sample is stored (0 to 7).
    pub gyro_downs: u8,
}

/// One decoded unit of the FIFO stream.
#[derive(Clone, Copy, Debug, PartialEq, Eq, Structural)]
pub enum Frame {
    /// An accelerometer sample.
    Accel { x: i16, y: i16, z: i16 },
    /// A gyroscope sample.
    Gyro { x: i16, y: i16, z: i16 },
    /// A magnetometer sample with the hall resistance.
    Mag { x: i16, y: i16, z: i16, rhall: u16 },
    /// The 24-bit sensor time.
    SensorTime { ticks: u32 },
    /// Frames were dropped because the FIFO was full.
    Skip { count: u8 },
    /// The input configuration changed.
    ConfigChanged,
}

/// Why decoding stopped before the end of the buffer.
#[derive(Clone, Copy, Debug, PartialEq, Eq, Structural)]
pub enum DecodeError {
    /// A header byte matches no known frame type.
    MalformedHeader { offset: usize, byte: u8 },
    /// Headerless mode with no stream enabled: frames would be empty.
    InvalidConfiguration,
}

/// What decoding a buffer gives, as mathematical values.
pub struct DecodeOutcome {
    /// The complete frames, in stream order.
    pub frames: Seq<Frame>,
    /// Offset in the stream up to which bytes are accounted for.
    pub consumed: nat,
    /// The bytes of an incomplete trailing frame.
    pub leftover: Seq<u8>,
    /// Why decoding stopped early, if it did.
    pub error: Option<DecodeError>,
    /// Whether the empty-FIFO marker was reached.
    pub empty_marker: bool,
}

/// The result of decoding a buffer drained from the FIFO.
pub struct DecodeResult {
    /// The complete frames, in the order of the stream.
    pub frames: Vec<Frame>,
    /// Bytes of the buffer accounted for by frames and markers.
    pub consumed: usize,
    /// The bytes of an incomplete trailing frame, to prepend to the next read.
    pub leftover: Vec<u8>,
    /// Set when decoding stopped at a byte it could not read.
    pub error: Option<DecodeError>,
    /// Set when the empty-FIFO marker was reached.
    pub empty_marker: bool,
}

impl View for DecodeResult {
    type V = DecodeOutcome;

    open spec fn view(&self) -> DecodeOutcome {
        DecodeOutcome {
            frames: self.frames@,
            consumed: self.consumed as nat,
            leftover: self.leftover@,
            error: self.error,
            empty_marker: self.empty_marker,
        }
    }
}

/// A signed 16-bit value from its little-endian bytes, in two's complement.
pub open spec fn le_i16(lsb: u8, msb: u8) -> int {
    let v = msb as int * 256 + lsb as int;
    if v >= 32768 { v - 65536 } else { v }
}

/// An unsigned 16-bit value from its little-endian bytes.
pub open spec fn le_u16(lsb: u8, msb: u8) -> int {
    msb as int * 256 + lsb as int
}

/// An unsigned 24-bit value from its little-endian bytes.
pub open spec fn le_u24(b0: u8, b1: u8, b2: u8) -> int {
    b2 as int * 65536 + b1 as int * 256 + b0 as int
}

pub open spec fn accel_at(b: Seq<u8>, i: int) -> Frame {
    Frame::Accel {
        x: le_i16(b[i], b[i + 1]) as i16,
        y: le_i16(b[i + 2], b[i + 3]) as i16,
        z: le_i16(b[i + 4], b[i + 5]) as i16,
    }
}

pub open spec fn gyro_at(b: Seq<u8>, i: int) -> Frame {
    Frame::Gyro {
        x: le_i16(b[i], b[i + 1]) as i16,
        y: le_i16(b[i + 2], b[i + 3]) as i16,
        z: le_i16(b[i + 4], b[i + 5]) as i16,
    }
}

pub open spec fn mag_at(b: Seq<u8>, i: int) -> Frame {
    Frame::Mag {
        x: le_i16(b[i], b[i + 1]) as i16,
        y: le_i16(b[i + 2], b[i + 3]) as i16,
        z: le_i16(b[i + 4], b[i + 5]) as i16,
        rhall: le_u16(b[i + 6], b[i + 7]) as u16,
    }
}

/// Length of the payload of a data frame with the given streams.
pub open spec fn payload_len(mag: bool, gyro: bool, accel: bool) -> nat {
    (if mag { 8nat } else { 0nat }) + (if gyro { 6nat } else { 0nat }) + (if accel { 6nat } else { 0nat })
}

/// The samples of a data payload that starts at `i`: magnetometer, then gyroscope,
/// then accelerometer, each only where its stream is present.
pub open spec fn payload_frames(b: Seq<u8>, i: int, mag: bool, gyro: bool, accel: bool) -> Seq<Frame> {
    let g = i + if mag { 8int } else { 0int };
    let a = g + if gyro { 6int } else { 0int };
    (if mag { seq![mag_at(b, i)] } else { Seq::empty() })
        + (if gyro { seq![gyro_at(b, g)] } else { Seq::empty() })
        + (if accel { seq![accel_at(b, a)] } else { Seq::empty() })
}

/// A header of a regular data frame: 0x84 to 0x9C in steps of four.
pub open spec fn is_data_header(h: u8) -> bool {
    h == 0x84 || h == 0x88 || h == 0x8C || h == 0x90 || h == 0x94 || h == 0x98 || h == 0x9C
}

pub open spec fn header_mag(h: u8) -> bool {
    h == 0x90 || h == 0x94 || h == 0x98 || h == 0x9C
}

pub open spec fn header_gyro(h: u8) -> bool {
    h == 0x88 || h == 0x8C || h == 0x98 || h == 0x9C
}

pub open spec fn header_accel(h: u8) -> bool {
    h == 0x84 || h == 0x8C || h == 0x94 || h == 0x9C
}

/// What the front of a nonempty buffer holds.
pub enum Step {
    /// A complete frame of `n` bytes, giving these frames.
    Got(Seq<Frame>, nat),
    /// A frame whose bytes are not all there yet.
    Partial,
    /// The empty-FIFO marker.
    EmptyMarker,
    /// A header that matches no frame type.
    Malformed,
    /// Headerless mode with no stream enabled.
    NoStreams,
}

/// How the front of the nonempty buffer `b` reads in header mode.
pub open spec fn header_step(b: Seq<u8>) -> Step {
    let h = b[0];
    if h == HEADER_EMPTY {
        Step::EmptyMarker
    } else if h == HEADER_SKIP {
        if b.len() >= 2 { Step::Got(seq![Frame::Skip { count: b[1] }], 2) } else { Step::Partial }
    } else if h == HEADER_SENSOR_TIME {
        if b.len() >= 4 {
            Step::Got(seq![Frame::SensorTime { ticks: le_u24(b[1], b[2], b[3]) as u32 }], 4)
        } else {
            Step::Partial
        }
    } else if h == HEADER_CONFIG_CHANGED {
        Step::Got(seq![Frame::ConfigChanged], 1)
    } else if is_data_header(h) {
        let n = 1 + payload_len(header_mag(h), header_gyro(h), header_accel(h));
        if b.len() >= n {
            Step::Got(payload_frames(b, 1, header_mag(h), header_gyro(h), header_accel(h)), n)
        } else {
            Step::Partial
        }
    } else {
        Step::Malformed
    }
}

/// How the front of the nonempty buffer `b` reads in headerless mode, where the
/// layout of a frame follows from the enabled streams alone.
pub open spec fn headerless_step(b: Seq<u8>, cfg: FifoConfig) -> Step {
    if !cfg.mag && !cfg.gyro && !cfg.accel {
        Step::NoStreams
    } else {
        let n = payload_len(cfg.mag, cfg.gyro, cfg.accel);
        if b.len() >= n {
            Step::Got(payload_frames(b, 0, cfg.mag, cfg.gyro, cfg.accel), n)
        } else {
            Step::Partial
        }
    }
}

/// How the front of the nonempty buffer `b` reads under `cfg`.
#[verifier::opaque]
pub open spec fn step(b: Seq<u8>, cfg: FifoConfig) -> Step {
    if cfg.header_mode { header_step(b) } else { headerless_step(b, cfg) }
}

/// Decoding of `b`, whose first byte stands at offset `base` of the stream.
pub open spec fn decode_from(b: Seq<u8>, cfg: FifoConfig, base: nat) -> DecodeOutcome
    decreases b.len(),
{
    let done = DecodeOutcome {
        frames: Seq::empty(),
        consumed: base,
        leftover: Seq::empty(),
        error: None,
        empty_marker: false,
    };
    if b.len() == 0 {
        done
    } else {
        match step(b, cfg) {
            Step::Got(fs, n) => {
                if 0 < n <= b.len() {
                    let r = decode_from(b.subrange(n as int, b.len() as int), cfg, base + n);
                    DecodeOutcome { frames: fs + r.frames, ..r }
                } else {
                    done
                }
            },
            Step::Partial => DecodeOutcome { leftover: b, ..done },
            Step::EmptyMarker => DecodeOutcome {
                consumed: base + b.len(),
                empty_marker: true,
                ..done
            },
            Step::Malformed => DecodeOutcome {
                error: Some(DecodeError::MalformedHeader { offset: base as usize, byte: b[0] }),
                ..done
            },
            Step::NoStreams => DecodeOutcome {
                error: Some(DecodeError::InvalidConfiguration),
                ..done
            },
        }
    }
}

/// Decoding of a whole buffer.
pub open spec fn decode_spec(b: Seq<u8>, cfg: FifoConfig) -> DecodeOutcome {
    decode_from(b, cfg, 0)
}

/// A signed 16-bit sample from its little-endian bytes.
pub fn read_i16(lsb: u8, msb: u8) -> (r: i16)
    ensures
        r as int == le_i16(lsb, msb),
{
    let v: i32 = (msb as i32) * 256 + (lsb as i32);
    if v >= 32768 {
        (v - 65536) as i16
    } else {
        v as i16
    }
}

/// An unsigned 16-bit value from its little-endian bytes.
pub fn read_u16(lsb: u8, msb: u8) -> (r: u16)
    ensures
        r as int == le_u16(lsb, msb),
{
    (msb as u16) * 256 + (lsb as u16)
}

/// An unsigned 24-bit value from its little-endian bytes.
pub fn read_u24(b0: u8, b1: u8, b2: u8) -> (r: u32)
    ensures
        r as int == le_u24(b0, b1, b2),
{
    (b2 as u32) * 65536 + (b1 as u32) * 256 + (b0 as u32)
}

fn accel_from(b: &[u8], i: usize) -> (r: Frame)
    requires
        i + 6 <= b@.len(),
    ensures
        r == accel_at(b@, i as int),
{
    Frame::Accel {
        x: read_i16(b[i], b[i + 1]),
        y: read_i16(b[i + 2], b[i + 3]),
        z: read_i16(b[i + 4], b[i + 5]),
    }
}

fn gyro_from(b: &[u8], i: usize) -> (r: Frame)
    requires
        i + 6 <= b@.len(),
    ensures
        r == gyro_at(b@, i as int),
{
    Frame::Gyro {
        x: read_i16(b[i], b[i + 1]),
        y: read_i16(b[i + 2], b[i + 3]),
        z: read_i16(b[i + 4], b[i + 5]),
    }
}

fn mag_from(b: &[u8], i: usize) -> (r: Frame)
    requires
        i + 8 <= b@.len(),
    ensures
        r == mag_at(b@, i as int),
{
    Frame::Mag {
        x: read_i16(b[i], b[i + 1]),
        y: read_i16(b[i + 2], b[i + 3]),
        z: read_i16(b[i + 4], b[i + 5]),
        rhall: read_u16(b[i + 6], b[i + 7]),
    }
}

fn exec_payload_len(mag: bool, gyro: bool, accel: bool) -> (r: usize)
    ensures
        r == payload_len(mag, gyro, accel),
{
    let mut n: usize = 0;
    if mag {
        n = n + MAG_LEN;
    }
    if gyro {
        n = n + AXES_LEN;
    }
    if accel {
        n = n + AXES_LEN;
    }
    n
}

/// Appends the samples of the data payload that starts at `i`.
fn push_payload(b: &[u8], i: usize, mag: bool, gyro: bool, accel: bool, frames: &mut Vec<Frame>)
    requires
        i + payload_len(mag, gyro, accel) <= b.len(),
    ensures
        final(frames)@ == old(frames)@ + payload_frames(b@, i as int, mag, gyro, accel),
{
    let ghost start = frames@;
    let mut j: usize = i;
    if mag {
        frames.push(mag_from(b, j));
        j = j + 8;
    }
    if gyro {
        frames.push(gyro_from(b, j));
        j = j + 6;
    }
    if accel {
        frames.push(accel_from(b, j));
    }
    assert(frames@ =~= start + payload_frames(b@, i as int, mag, gyro, accel));
}

/// What the front of the rest of a buffer held, as found by `step_at`.
#[derive(PartialEq, Eq, Structural)]
enum StepKind {
    Got(usize),
    Partial,
    EmptyMarker,
    Malformed,
    NoStreams,
}

/// The exec step agrees with the spec step, and `frames` grew by the frames it gave.
spec fn step_agrees(r: StepKind, s: Step, rest: Seq<u8>, before: Seq<Frame>, after: Seq<Frame>) -> bool {
    match s {
        Step::Got(fs, n) => r == StepKind::Got(n as usize) && 0 < n <= rest.len() && after == before + fs,
        Step::Partial => r == StepKind::Partial && rest.len() <= 20 && after == before,
        Step::EmptyMarker => r == StepKind::EmptyMarker && after == before,
        Step::Malformed => r == StepKind::Malformed && after == before,
        Step::NoStreams => r == StepKind::NoStreams && after == before,
    }
}

/// Reads the regular data frame with header `h` that starts at `pos`.
fn data_step_at(b: &[u8], pos: usize, h: u8, frames: &mut Vec<Frame>) -> (r: StepKind)
    requires
        pos < b@.len(),
        h == b@[pos as int],
        is_data_header(h),
    ensures
        step_agrees(r, header_step(b@.subrange(pos as int, b@.len() as int)),
            b@.subrange(pos as int, b@.len() as int), old(frames)@, final(frames)@),
{
    let ghost rest = b@.subrange(pos as int, b@.len() as int);
    assert(rest[0] == h);
    let avail: usize = b.len() - pos;
    let mag = h == 0x90 || h == 0x94 || h == 0x98 || h == 0x9C;
    let gyro = h == 0x88 || h == 0x8C || h == 0x98 || h == 0x9C;
    let accel = h == 0x84 || h == 0x8C || h == 0x94 || h == 0x9C;
    let n = 1 + exec_payload_len(mag, gyro, accel);
    if avail >= n {
        push_payload(b, pos + 1, mag, gyro, accel, frames);
        assert(payload_frames(b@, pos + 1, mag, gyro, accel) =~= payload_frames(rest, 1, mag, gyro, accel));
        StepKind::Got(n)
    } else {
        StepKind::Partial
    }
}

/// Reads the frame that starts at `pos` under `cfg` and appends its samples.
fn step_at(b: &[u8], pos: usize, cfg: &FifoConfig, frames: &mut Vec<Frame>) -> (r: StepKind)
    requires
        pos < b@.len(),
    ensures
        step_agrees(r, step(b@.subrange(pos as int, b@.len() as int), *cfg),
            b@.subrange(pos as int, b@.len() as int), old(frames)@, final(frames)@),
{
    reveal(step);
    if cfg.header_mode {
        header_step_at(b, pos, frames)
    } else {
        headerless_step_at(b, pos, cfg, frames)
    }
}

/// Decoding a buffer that starts with a complete frame gives that frame's
/// samples, then what decoding the rest gives.
proof fn lemma_unfold_got(b: Seq<u8>, cfg: FifoConfig, base: nat, fs: Seq<Frame>, n: nat)
    requires
        b.len() > 0,
        step(b, cfg) == Step::Got(fs, n),
        0 < n <= b.len(),
    ensures
        decode_from(b, cfg, base) == prepend(fs, decode_from(b.subrange(n as int, b.len() as int), cfg, base + n)),
{
}

fn header_step_at(b: &[u8], pos: usize, frames: &mut Vec<Frame>) -> (r: StepKind)
    requires
        pos < b@.len(),
    ensures
        step_agrees(r, header_step(b@.subrange(pos as int, b@.len() as int)),
            b@.subrange(pos as int, b@.len() as int), old(frames)@, final(frames)@),
{
    let ghost rest = b@.subrange(pos as int, b@.len() as int);
    let avail: usize = b.len() - pos;
    let ghost before = frames@;
    let h = b[pos];
    assert(rest[0] == h);
    if h == HEADER_EMPTY {
        StepKind::EmptyMarker
    } else if h == HEADER_SKIP {
        if avail >= 2 {
            frames.push(Frame::Skip { count: b[pos + 1] });
            assert(rest[1] == b@[pos + 1]);
            assert(frames@ =~= before + seq![Frame::Skip { count: rest[1] }]);
            StepKind::Got(2)
        } else {
            StepKind::Partial
        }
    } else if h == HEADER_SENSOR_TIME {
        if avail >= 4 {
            frames.push(Frame::SensorTime { ticks: read_u24(b[pos + 1], b[pos + 2], b[pos + 3]) });
            assert(rest[1] == b@[pos + 1] && rest[2] == b@[pos + 2] && rest[3] == b@[pos + 3]);
            assert(frames@ =~= before + seq![Frame::SensorTime { ticks: le_u24(rest[1], rest[2], rest[3]) as u32 }]);
            StepKind::Got(4)
        } else {
            StepKind::Partial
        }
    } else if h == HEADER_CONFIG_CHANGED {
        frames.push(Frame::ConfigChanged);
        assert(frames@ =~= before + seq![Frame::ConfigChanged]);
        StepKind::Got(1)
    } else if h == 0x84 || h == 0x88 || h == 0x8C || h == 0x90 || h == 0x94 || h == 0x98
        || h == 0x9C {
        data_step_at(b, pos, h, frames)
    } else {
        StepKind::Malformed
    }
}

fn headerless_step_at(b: &[u8], pos: usize, cfg: &FifoConfig, frames: &mut Vec<Frame>) -> (r: StepKind)
    requires
        pos < b@.len(),
    ensures
        step_agrees(r, headerless_step(b@.subrange(pos as int, b@.len() as int), *cfg),
            b@.subrange(pos as int, b@.len() as int), old(frames)@, final(frames)@),
{
    let ghost rest = b@.subrange(pos as int, b@.len() as int);
    let avail: usize = b.len() - pos;
    if !cfg.mag && !cfg.gyro && !cfg.accel {
        StepKind::NoStreams
    } else {
        let n = exec_payload_len(cfg.mag, cfg.gyro, cfg.accel);
        if avail >= n {
            push_payload(b, pos, cfg.mag, cfg.gyro, cfg.accel, frames);
            assert(payload_frames(b@, pos as int, cfg.mag, cfg.gyro, cfg.accel) =~= payload_frames(rest, 0, cfg.mag, cfg.gyro, cfg.accel));
            StepKind::Got(n)
        } else {
            StepKind::Partial
        }
    }
}

/// `o` with the frames `fs` in front of its own.
pub open spec fn prepend(fs: Seq<Frame>, o: DecodeOutcome) -> DecodeOutcome {
    DecodeOutcome { frames: fs + o.frames, ..o }
}

/// The bytes of `b` from `pos` on.
fn copy_tail(b: &[u8], pos: usize) -> (r: Vec<u8>)
    requires
        pos <= b@.len(),
    ensures
        r@ == b@.subrange(pos as int, b@.len() as int),
{
    let mut r: Vec<u8> = Vec::new();
    let mut i: usize = pos;
    while i < b.len()
        invariant
            pos <= i <= b@.len(),
            r@ == b@.subrange(pos as int, i as int),
        decreases b.len() - i,
    {
        r.push(b[i]);
        i = i + 1;
        assert(r@ =~= b@.subrange(pos as int, i as int));
    }
    r
}

/// Decodes a buffer drained from the FIFO data register into frames, in the
/// order of the stream. Decoding stops at the empty-FIFO marker, at a header
/// it cannot read (reported with its offset, after the frames before it), or
/// at an incomplete trailing frame, whose bytes are handed back as leftover.
pub fn decode(buffer: &[u8], config: &FifoConfig) -> (r: DecodeResult)
    ensures
        r@ == decode_spec(buffer@, *config),
        r.consumed <= buffer.len(),
        r.leftover.len() <= 20,
        r.error.is_none() ==> r.consumed + r.leftover.len() == buffer.len(),
{
    let mut frames: Vec<Frame> = Vec::new();
    let mut pos: usize = 0;
    assert(buffer@.subrange(0, buffer@.len() as int) =~= buffer@);
    assert(frames@ + decode_spec(buffer@, *config).frames =~= decode_spec(buffer@, *config).frames);
    loop
        invariant
            pos <= buffer.len(),
            decode_spec(buffer@, *config) == prepend(
                frames@,
                decode_from(buffer@.subrange(pos as int, buffer@.len() as int), *config, pos as nat),
            ),
        decreases buffer.len() - pos,
    {
        let ghost rest = buffer@.subrange(pos as int, buffer@.len() as int);
        if pos == buffer.len() {
            assert(frames@ + Seq::<Frame>::empty() =~= frames@);
            return DecodeResult {
                frames,
                consumed: pos,
                leftover: Vec::new(),
                error: None,
                empty_marker: false,
            };
        }
        let ghost before = frames@;
        let k = step_at(buffer, pos, config, &mut frames);
        match k {
            StepKind::Got(n) => {
                let ghost tail = rest.subrange(n as int, rest.len() as int);
                assert(buffer@.subrange((pos + n) as int, buffer@.len() as int) =~= tail);
                proof {
                    let fs = step(rest, *config)->Got_0;
                    let o = decode_from(tail, *config, (pos + n) as nat);
                    lemma_unfold_got(rest, *config, pos as nat, fs, n as nat);
                    assert(before + (fs + o.frames) =~= frames@ + o.frames);
                }
                pos = pos + n;
            },
            StepKind::Partial => {
                let leftover = copy_tail(buffer, pos);
                assert(frames@ + Seq::<Frame>::empty() =~= frames@);
                return DecodeResult { frames, consumed: pos, leftover, error: None, empty_marker: false };
            },
            StepKind::EmptyMarker => {
                assert(frames@ + Seq::<Frame>::empty() =~= frames@);
                return DecodeResult {
                    frames,
                    consumed: buffer.len(),
                    leftover: Vec::new(),
                    error: None,
                    empty_marker: true,
                };
            },
            StepKind::Malformed => {
                assert(frames@ + Seq::<Frame>::empty() =~= frames@);
                return DecodeResult {
                    frames,
                    consumed: pos,
                    leftover: Vec::new(),
                    error: Some(DecodeError::MalformedHeader { offset: pos, byte: buffer[pos] }),
                    empty_marker: false,
                };
            },
            StepKind::NoStreams => {
                assert(frames@ + Seq::<Frame>::empty() =~= frames@);
                return DecodeResult {
                    frames,
                    consumed: pos,
                    leftover: Vec::new(),
                    error: Some(DecodeError::InvalidConfiguration),
                    empty_marker: false,
                };
            },
        }
    }
}

/// Decodes `buffer` behind `carry`, the leftover bytes of the previous read.
pub fn decode_with_carry(carry: &[u8], buffer: &[u8], config: &FifoConfig) -> (r: DecodeResult)
    ensures
        r@ == decode_spec(carry@ + buffer@, *config),
        r.leftover.len() <= 20,
{
    let mut joined: Vec<u8> = Vec::new();
    let mut i: usize = 0;
    while i < carry.len()
        invariant
            i <= carry@.len(),
            joined@ == carry@.subrange(0, i as int),
        decreases carry@.len() - i,
    {
        joined.push(carry[i]);
        i = i + 1;
        assert(joined@ =~= carry@.subrange(0, i as int));
    }
    let mut j: usize = 0;
    while j < buffer.len()
        invariant
            j <= buffer@.len(),
            joined@ == carry@ + buffer@.subrange(0, j as int),
        decreases buffer@.len() - j,
    {
        joined.push(buffer[j]);
        j = j + 1;
        assert(joined@ =~= carry@ + buffer@.subrange(0, j as int));
    }
    assert(buffer@.subrange(0, buffer@.len() as int) =~= buffer@);
    decode(joined.as_slice(), config)
}

} // verus!
