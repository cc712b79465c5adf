//! IVF container framing: a 32-byte file header followed by frame records
//! (4-byte little-endian size, 8-byte little-endian timestamp, payload).
use vstd::prelude::*;

use crate::error::Error;

verus! {

// ---------------------------------------------------------------------------
// Little-endian integers
// ---------------------------------------------------------------------------

/// `256^n`.
pub open spec fn pow256(n: nat) -> nat
    decreases n,
{
    if n == 0 {
        1
    } else {
        256 * pow256((n - 1) as nat)
    }
}

/// The `n` least significant bytes of `v`, least significant first.
pub open spec fn le_bytes(v: nat, n: nat) -> Seq<u8>
    decreases n,
{
    if n == 0 {
        Seq::empty()
    } else {
        seq![(v % 256) as u8] + le_bytes(v / 256, (n - 1) as nat)
    }
}

/// The number that a little-endian byte sequence spells.
pub open spec fn le_value(s: Seq<u8>) -> nat
    decreases s.len(),
{
    if s.len() == 0 {
        0
    } else {
        s[0] as nat + 256 * le_value(s.drop_first())
    }
}

proof fn lemma_pow256_mono(a: nat, b: nat)
    requires
        a <= b,
    ensures
        pow256(a) <= pow256(b),
    decreases b,
{
    if a < b {
        lemma_pow256_mono(a, (b - 1) as nat);
    }
}

proof fn lemma_pow256_values()
    ensures
        pow256(2) == 0x1_0000,
        pow256(4) == 0x1_0000_0000,
        pow256(7) == 0x100_0000_0000_0000,
        pow256(8) == 0x1_0000_0000_0000_0000,
{
    reveal_with_fuel(pow256, 9);
}

/// Decoding what was encoded gives the number back.
pub proof fn lemma_le_round_trip(v: nat, n: nat)
    requires
        v < pow256(n),
    ensures
        le_bytes(v, n).len() == n,
        le_value(le_bytes(v, n)) == v,
    decreases n,
{
    if n > 0 {
        let p = pow256((n - 1) as nat);
        assert(v / 256 < p) by (nonlinear_arith)
            requires
                v < 256 * p,
        ;
        lemma_le_round_trip(v / 256, (n - 1) as nat);
        let s = le_bytes(v, n);
        assert(s.drop_first() =~= le_bytes(v / 256, (n - 1) as nat));
        assert(v == v % 256 + 256 * (v / 256)) by (nonlinear_arith);
    }
}

/// Appends the `n` low bytes of `v` to `buf`, least significant first.
fn put_le(buf: &mut Vec<u8>, v: u64, n: usize)
    requires
        n <= 8,
        (v as nat) < pow256(n as nat),
    ensures
        final(buf)@ == old(buf)@ + le_bytes(v as nat, n as nat),
{
    let ghost start = buf@;
    let mut x: u64 = v;
    let mut i: usize = 0;
    while i < n
        invariant
            i <= n,
            buf@ + le_bytes(x as nat, (n - i) as nat) == start + le_bytes(v as nat, n as nat),
        decreases n - i,
    {
        let ghost before = buf@;
        proof {
            let k = (n - i) as nat;
            assert(le_bytes(x as nat, k) == seq![(x as nat % 256) as u8] + le_bytes(
                x as nat / 256,
                (k - 1) as nat,
            ));
        }
        buf.push((x % 256) as u8);
        x = x / 256;
        i = i + 1;
        proof {
            assert(before + (seq![buf@.last()] + le_bytes(x as nat, (n - i) as nat)) =~= buf@
                + le_bytes(x as nat, (n - i) as nat));
        }
    }
    assert(le_bytes(x as nat, 0) =~= Seq::<u8>::empty());
    assert(buf@ =~= buf@ + le_bytes(x as nat, 0));
}

proof fn lemma_le_value_bound(s: Seq<u8>)
    ensures
        le_value(s) < pow256(s.len()),
    decreases s.len(),
{
    if s.len() > 0 {
        lemma_le_value_bound(s.drop_first());
        let a = s[0] as nat;
        let b = le_value(s.drop_first());
        let p = pow256((s.len() - 1) as nat);
        assert(a + 256 * b < 256 * p) by (nonlinear_arith)
            requires
                a < 256,
                b < p,
        ;
    }
}

/// Reads `n` little-endian bytes of `data` starting at `off`.
fn get_le(data: &[u8], off: usize, n: usize) -> (r: u64)
    requires
        n <= 8,
        off + n <= data@.len(),
    ensures
        r as nat == le_value(data@.subrange(off as int, off + n)),
{
    let len = data.len();
    let mut v: u64 = 0;
    let mut i: usize = n;
    proof {
        assert(data@.subrange(off + n, off + n) =~= Seq::<u8>::empty());
    }
    while i > 0
        invariant
            i <= n <= 8,
            off + n <= data@.len() == len,
            v as nat == le_value(data@.subrange(off + i, off + n)),
        decreases i,
    {
        i = i - 1;
        let ghost tail = data@.subrange(off + i + 1, off + n);
        let ghost s = data@.subrange(off + i, off + n);
        proof {
            assert(s.drop_first() =~= tail);
            lemma_le_value_bound(tail);
            lemma_pow256_mono(tail.len(), 7);
            lemma_pow256_values();
            let b = data@[off + i] as nat;
            let t = le_value(tail);
            assert(b + 256 * t < 0x1_0000_0000_0000_0000) by (nonlinear_arith)
                requires
                    b < 256,
                    t < 0x100_0000_0000_0000,
            ;
        }
        v = (data[off + i] as u64) + 256 * v;
    }
    v
}

// ---------------------------------------------------------------------------
// Format
// ---------------------------------------------------------------------------

/// Size of the fixed file header in bytes.
pub const HEADER_LEN: usize = 32;

/// Offset of the frame-count field inside the file header.
pub const FRAME_COUNT_OFFSET: usize = 24;

/// Size of the header in front of each frame payload.
pub const RECORD_HEADER_LEN: usize = 12;

/// The file signature, `"DKIF"`.
pub open spec fn magic() -> Seq<u8> {
    seq![0x44u8, 0x4b, 0x49, 0x46]
}

/// The codec tag, `"AV01"`.
pub open spec fn fourcc() -> Seq<u8> {
    seq![0x41u8, 0x56, 0x30, 0x31]
}

/// Fields of the IVF file header.
#[derive(Debug, Clone, Copy, PartialEq, Eq, Structural)]
pub struct IvfHeader {
    pub width: u16,
    pub height: u16,
    pub frame_rate: u32,
    pub time_scale: u32,
    pub frame_count: u32,
}

/// A frame record found by the reader: where its payload lies in the input
/// and the timestamp stored with it.
#[derive(Debug, Clone, Copy, PartialEq, Eq, Structural)]
pub struct IvfFrame {
    pub offset: usize,
    pub size: usize,
    pub timestamp: u64,
}

/// The 32 header bytes that describe `h`.
pub open spec fn header_bytes(h: IvfHeader) -> Seq<u8> {
    magic() + le_bytes(0, 2) + le_bytes(32, 2) + fourcc() + le_bytes(h.width as nat, 2) + le_bytes(
        h.height as nat,
        2,
    ) + le_bytes(h.frame_rate as nat, 4) + le_bytes(h.time_scale as nat, 4) + le_bytes(
        h.frame_count as nat,
        4,
    ) + le_bytes(0, 4)
}

/// Whether `data` starts with a header this reader accepts.
pub open spec fn accepts_header(data: Seq<u8>) -> bool {
    &&& data.len() >= 32
    &&& data.subrange(0, 4) == magic()
    &&& data.subrange(8, 12) == fourcc()
}

/// The header fields that `data` holds.
pub open spec fn header_of(data: Seq<u8>) -> IvfHeader {
    IvfHeader {
        width: le_value(data.subrange(12, 14)) as u16,
        height: le_value(data.subrange(14, 16)) as u16,
        frame_rate: le_value(data.subrange(16, 20)) as u32,
        time_scale: le_value(data.subrange(20, 24)) as u32,
        frame_count: le_value(data.subrange(24, 28)) as u32,
    }
}

/// One frame record: size, timestamp, payload.
pub open spec fn record_bytes(payload: Seq<u8>, timestamp: u64) -> Seq<u8> {
    le_bytes(payload.len(), 4) + le_bytes(timestamp as nat, 8) + payload
}

/// The records of `frames`, in order.
pub open spec fn records_bytes(frames: Seq<(Seq<u8>, u64)>) -> Seq<u8>
    decreases frames.len(),
{
    if frames.len() == 0 {
        Seq::empty()
    } else {
        record_bytes(frames[0].0, frames[0].1) + records_bytes(frames.drop_first())
    }
}

/// Whether every payload's size fits the 4-byte size field.
pub open spec fn sizes_fit(frames: Seq<(Seq<u8>, u64)>) -> bool {
    forall|i: int| 0 <= i < frames.len() ==> #[trigger] frames[i].0.len() < 0x1_0000_0000
}

/// The frames read from `data` starting at byte `off`: records are taken
/// while a whole record header is left; a record whose payload runs past
/// the end closes the stream.
pub open spec fn parse_records(data: Seq<u8>, off: int) -> Seq<(Seq<u8>, u64)>
    decreases data.len() - off,
{
    if 0 <= off && off + 12 <= data.len() {
        let size = le_value(data.subrange(off, off + 4)) as int;
        let timestamp = le_value(data.subrange(off + 4, off + 12)) as u64;
        if off + 12 + size <= data.len() {
            seq![(data.subrange(off + 12, off + 12 + size), timestamp)] + parse_records(
                data,
                off + 12 + size,
            )
        } else {
            Seq::empty()
        }
    } else {
        Seq::empty()
    }
}

/// The payload and timestamp that a found frame stands for in `data`.
pub open spec fn frame_view(data: Seq<u8>, f: IvfFrame) -> (Seq<u8>, u64) {
    (data.subrange(f.offset as int, f.offset + f.size), f.timestamp)
}

/// The payloads and timestamps that `frames` stand for in `data`.
pub open spec fn frames_view(data: Seq<u8>, frames: Seq<IvfFrame>) -> Seq<(Seq<u8>, u64)> {
    frames.map_values(|f: IvfFrame| frame_view(data, f))
}

proof fn lemma_records_push(frames: Seq<(Seq<u8>, u64)>, f: (Seq<u8>, u64))
    ensures
        records_bytes(frames.push(f)) == records_bytes(frames) + record_bytes(f.0, f.1),
    decreases frames.len(),
{
    if frames.len() == 0 {
        let one = frames.push(f);
        assert(one.drop_first() =~= Seq::<(Seq<u8>, u64)>::empty());
        assert(one[0] == f);
        assert(records_bytes(one.drop_first()) =~= Seq::<u8>::empty());
        assert(records_bytes(one) =~= record_bytes(f.0, f.1));
    } else {
        let rest = frames.drop_first();
        lemma_records_push(rest, f);
        assert(frames.push(f).drop_first() =~= rest.push(f));
        assert(records_bytes(frames.push(f)) =~= records_bytes(frames) + record_bytes(f.0, f.1));
    }
}

proof fn lemma_parse_after_prefix(prefix: Seq<u8>, frames: Seq<(Seq<u8>, u64)>)
    requires
        sizes_fit(frames),
    ensures
        parse_records(prefix + records_bytes(frames), prefix.len() as int) == frames,
    decreases frames.len(),
{
    let data = prefix + records_bytes(frames);
    let off = prefix.len() as int;
    if frames.len() == 0 {
        assert(data =~= prefix);
        assert(parse_records(data, off) =~= frames);
    } else {
        let (p, t) = frames[0];
        let rest = frames.drop_first();
        assert(sizes_fit(rest)) by {
            assert forall|i: int| 0 <= i < rest.len() implies #[trigger] rest[i].0.len()
                < 0x1_0000_0000 by {
                assert(rest[i] == frames[i + 1]);
            }
        }
        lemma_pow256_values();
        assert(p.len() < 0x1_0000_0000);
        lemma_le_round_trip(p.len(), 4);
        lemma_le_round_trip(t as nat, 8);
        let rec = record_bytes(p, t);
        let next = prefix + rec;
        assert(data =~= next + records_bytes(rest));
        assert(data.subrange(off, off + 4) =~= le_bytes(p.len(), 4));
        assert(data.subrange(off + 4, off + 12) =~= le_bytes(t as nat, 8));
        assert(data.subrange(off + 12, off + 12 + p.len()) =~= p);
        lemma_parse_after_prefix(next, rest);
        assert(parse_records(data, off) =~= seq![(p, t)] + rest);
    }
}

/// Reading back a header followed by the records of `frames` yields exactly
/// `frames`, in order, whatever the header's frame-count field holds.
pub proof fn lemma_round_trip(h: IvfHeader, frames: Seq<(Seq<u8>, u64)>)
    requires
        sizes_fit(frames),
    ensures
        accepts_header(header_bytes(h) + records_bytes(frames)),
        header_of(header_bytes(h) + records_bytes(frames)) == h,
        parse_records(header_bytes(h) + records_bytes(frames), 32) == frames,
{
    let hb = header_bytes(h);
    let data = hb + records_bytes(frames);
    lemma_pow256_values();
    lemma_le_round_trip(0, 2);
    lemma_le_round_trip(32, 2);
    lemma_le_round_trip(h.width as nat, 2);
    lemma_le_round_trip(h.height as nat, 2);
    lemma_le_round_trip(h.frame_rate as nat, 4);
    lemma_le_round_trip(h.time_scale as nat, 4);
    lemma_le_round_trip(h.frame_count as nat, 4);
    lemma_le_round_trip(0, 4);
    assert(hb.len() == 32);
    assert(data.subrange(0, 4) =~= magic());
    assert(data.subrange(8, 12) =~= fourcc());
    assert(data.subrange(12, 14) =~= le_bytes(h.width as nat, 2));
    assert(data.subrange(14, 16) =~= le_bytes(h.height as nat, 2));
    assert(data.subrange(16, 20) =~= le_bytes(h.frame_rate as nat, 4));
    assert(data.subrange(20, 24) =~= le_bytes(h.time_scale as nat, 4));
    assert(data.subrange(24, 28) =~= le_bytes(h.frame_count as nat, 4));
    lemma_parse_after_prefix(hb, frames);
}

proof fn lemma_le_bytes_len(v: nat, n: nat)
    ensures
        le_bytes(v, n).len() == n,
    decreases n,
{
    if n > 0 {
        lemma_le_bytes_len(v / 256, (n - 1) as nat);
    }
}

proof fn lemma_header_len(h: IvfHeader)
    ensures
        header_bytes(h).len() == 32,
{
    lemma_le_bytes_len(0, 2);
    lemma_le_bytes_len(32, 2);
    lemma_le_bytes_len(h.width as nat, 2);
    lemma_le_bytes_len(h.height as nat, 2);
    lemma_le_bytes_len(h.frame_rate as nat, 4);
    lemma_le_bytes_len(h.time_scale as nat, 4);
    lemma_le_bytes_len(h.frame_count as nat, 4);
    lemma_le_bytes_len(0, 4);
}

proof fn lemma_header_patch(h: IvfHeader, count: u32)
    ensures
        header_bytes(IvfHeader { frame_count: count, ..h }) == header_bytes(h).subrange(0, 24)
            + le_bytes(count as nat, 4) + header_bytes(h).subrange(28, 32),
{
    lemma_header_len(h);
    lemma_le_bytes_len(0, 2);
    lemma_le_bytes_len(32, 2);
    lemma_le_bytes_len(h.width as nat, 2);
    lemma_le_bytes_len(h.height as nat, 2);
    lemma_le_bytes_len(h.frame_rate as nat, 4);
    lemma_le_bytes_len(h.time_scale as nat, 4);
    lemma_le_bytes_len(h.frame_count as nat, 4);
    lemma_le_bytes_len(count as nat, 4);
    lemma_le_bytes_len(0, 4);
    assert(header_bytes(IvfHeader { frame_count: count, ..h }) =~= header_bytes(h).subrange(0, 24)
        + le_bytes(count as nat, 4) + header_bytes(h).subrange(28, 32));
}

// ---------------------------------------------------------------------------
// Writing
// ---------------------------------------------------------------------------

/// Appends `bytes` to `buf`.
fn push_bytes(buf: &mut Vec<u8>, bytes: &[u8])
    ensures
        final(buf)@ == old(buf)@ + bytes@,
{
    let ghost start = buf@;
    let mut i: usize = 0;
    while i < bytes.len()
        invariant
            i <= bytes@.len(),
            buf@ == start + bytes@.subrange(0, i as int),
        decreases bytes@.len() - i,
    {
        buf.push(bytes[i]);
        i = i + 1;
        assert(buf@ =~= start + bytes@.subrange(0, i as int));
    }
    assert(bytes@.subrange(0, i as int) =~= bytes@);
}

/// The 32 header bytes for `h`.
pub fn encode_header(h: &IvfHeader) -> (r: Vec<u8>)
    ensures
        r@ == header_bytes(*h),
{
    proof {
        lemma_pow256_values();
    }
    let mut buf: Vec<u8> = Vec::new();
    buf.push(0x44);
    buf.push(0x4b);
    buf.push(0x49);
    buf.push(0x46);
    assert(buf@ =~= magic());
    put_le(&mut buf, 0, 2);
    put_le(&mut buf, 32, 2);
    let ghost before = buf@;
    buf.push(0x41);
    buf.push(0x56);
    buf.push(0x30);
    buf.push(0x31);
    assert(buf@ =~= before + fourcc());
    put_le(&mut buf, h.width as u64, 2);
    put_le(&mut buf, h.height as u64, 2);
    put_le(&mut buf, h.frame_rate as u64, 4);
    put_le(&mut buf, h.time_scale as u64, 4);
    put_le(&mut buf, h.frame_count as u64, 4);
    put_le(&mut buf, 0, 4);
    buf
}

/// The 12-byte header of a frame record with `size` payload bytes.
pub fn encode_record_header(size: u32, timestamp: u64) -> (r: Vec<u8>)
    ensures
        r@ == le_bytes(size as nat, 4) + le_bytes(timestamp as nat, 8),
{
    proof {
        lemma_pow256_values();
    }
    let mut buf: Vec<u8> = Vec::new();
    put_le(&mut buf, size as u64, 4);
    put_le(&mut buf, timestamp, 8);
    assert(buf@ =~= le_bytes(size as nat, 4) + le_bytes(timestamp as nat, 8));
    buf
}

/// The four bytes that go into the frame-count field.
pub fn encode_frame_count(count: u32) -> (r: Vec<u8>)
    ensures
        r@ == le_bytes(count as nat, 4),
{
    proof {
        lemma_pow256_values();
    }
    let mut buf: Vec<u8> = Vec::new();
    put_le(&mut buf, count as u64, 4);
    assert(buf@ =~= le_bytes(count as nat, 4));
    buf
}

/// Overwrites the frame-count field of a serialized header with `count`.
fn patch_frame_count(buf: &mut Vec<u8>, count: u32)
    requires
        old(buf)@.len() >= 28,
    ensures
        final(buf)@ == old(buf)@.subrange(0, 24) + le_bytes(count as nat, 4) + old(buf)@.subrange(
            28,
            old(buf)@.len() as int,
        ),
{
    let field = encode_frame_count(count);
    proof {
        lemma_le_bytes_len(count as nat, 4);
    }
    let ghost start = buf@;
    buf[24] = field[0];
    buf[25] = field[1];
    buf[26] = field[2];
    buf[27] = field[3];
    assert(buf@ =~= start.subrange(0, 24) + field@ + start.subrange(28, start.len() as int));
}

/// An IVF stream being written into memory.
///
/// The header goes out first with a zero frame count; each frame appends a
/// record; `finish` patches the true count into the header.
pub struct IvfWriter {
    buf: Vec<u8>,
    header: IvfHeader,
    frame_count: u32,
    frames: Ghost<Seq<(Seq<u8>, u64)>>,
}

impl IvfWriter {
    /// The buffer holds the header and the records written so far.
    pub closed spec fn wf(&self) -> bool {
        &&& self.buf@ == header_bytes(self.header) + records_bytes(self.frames@)
        &&& self.header.frame_count == 0
        &&& self.frame_count as nat == self.frames@.len() % 0x1_0000_0000
        &&& sizes_fit(self.frames@)
    }

    /// The header written at creation, with its placeholder count.
    pub closed spec fn header(&self) -> IvfHeader {
        self.header
    }

    /// The payloads and timestamps written so far, in order.
    pub closed spec fn frames(&self) -> Seq<(Seq<u8>, u64)> {
        self.frames@
    }

    /// Starts a stream: the header with a zero frame count is written at once.
    pub fn new(width: u16, height: u16, fps_num: u32, fps_den: u32) -> (w: IvfWriter)
        ensures
            w.wf(),
            w.header() == (IvfHeader {
                width,
                height,
                frame_rate: fps_num,
                time_scale: fps_den,
                frame_count: 0,
            }),
            w.frames() == Seq::<(Seq<u8>, u64)>::empty(),
    {
        let header = IvfHeader {
            width,
            height,
            frame_rate: fps_num,
            time_scale: fps_den,
            frame_count: 0,
        };
        let buf = encode_header(&header);
        let ghost frames = Seq::<(Seq<u8>, u64)>::empty();
        assert(buf@ =~= header_bytes(header) + records_bytes(frames));
        IvfWriter { buf, header, frame_count: 0, frames: Ghost(frames) }
    }

    /// Appends one frame record; the frame counter wraps on overflow.
    pub fn write_frame(&mut self, data: &[u8], timestamp: u64)
        requires
            old(self).wf(),
            data@.len() < 0x1_0000_0000,
        ensures
            final(self).wf(),
            final(self).header() == old(self).header(),
            final(self).frames() == old(self).frames().push((data@, timestamp)),
    {
        let ghost old_frames = self.frames@;
        let record = encode_record_header(data.len() as u32, timestamp);
        push_bytes(&mut self.buf, record.as_slice());
        push_bytes(&mut self.buf, data);
        self.frame_count = self.frame_count.wrapping_add(1);
        self.frames = Ghost(old_frames.push((data@, timestamp)));
        proof {
            lemma_records_push(old_frames, (data@, timestamp));
            assert(self.buf@ =~= header_bytes(self.header) + records_bytes(self.frames@));
            assert(sizes_fit(self.frames@)) by {
                assert forall|i: int| 0 <= i < self.frames@.len() implies #[trigger] self.frames@[i].0.len()
                    < 0x1_0000_0000 by {
                    if i < old_frames.len() {
                        assert(self.frames@[i] == old_frames[i]);
                    }
                }
            }
        }
    }

    /// The number of frames written, modulo 2^32.
    pub fn frame_count(&self) -> (r: u32)
        requires
            self.wf(),
        ensures
            r as nat == self.frames().len() % 0x1_0000_0000,
    {
        self.frame_count
    }

    /// Ends the stream: patches the frame count into the header and hands
    /// back the bytes.
    pub fn finish(self) -> (r: Vec<u8>)
        requires
            self.wf(),
        ensures
            sizes_fit(self.frames()),
            r@ == header_bytes(
                IvfHeader { frame_count: (self.frames().len() % 0x1_0000_0000) as u32, ..self.header() },
            ) + records_bytes(self.frames()),
    {
        proof {
            lemma_header_len(self.header);
        }
        let count = self.frame_count;
        let mut buf = self.buf;
        let ghost h = IvfHeader { frame_count: count, ..self.header };
        proof {
            lemma_header_len(h);
            lemma_header_patch(self.header, count);
        }
        let ghost hb = header_bytes(self.header);
        let ghost rb = records_bytes(self.frames@);
        patch_frame_count(&mut buf, count);
        assert(buf@.subrange(0, 32) =~= header_bytes(h));
        assert(buf@.subrange(32, buf@.len() as int) =~= rb);
        assert(buf@ =~= header_bytes(h) + records_bytes(self.frames@));
        buf
    }
}

/// What a writer has written reads back as the frames written, in order,
/// with their payloads and timestamps, whatever value the frame-count field
/// ends up holding: patched by `finish`, or still the placeholder.
pub proof fn lemma_writer_round_trip(w: IvfWriter, count: u32)
    requires
        w.wf(),
    ensures
        accepts_header(header_bytes(IvfHeader { frame_count: count, ..w.header() }) + records_bytes(w.frames())),
        header_of(header_bytes(IvfHeader { frame_count: count, ..w.header() }) + records_bytes(w.frames()))
            == (IvfHeader { frame_count: count, ..w.header() }),
        parse_records(
            header_bytes(IvfHeader { frame_count: count, ..w.header() }) + records_bytes(w.frames()),
            32,
        ) == w.frames(),
{
    lemma_round_trip(IvfHeader { frame_count: count, ..w.header() }, w.frames());
}

// ---------------------------------------------------------------------------
// Reading
// ---------------------------------------------------------------------------

fn has_ivf_signature(data: &[u8]) -> (r: bool)
    ensures
        r == accepts_header(data@),
{
    if data.len() < 32 {
        return false;
    }
    let ok = data[0] == 0x44 && data[1] == 0x4b && data[2] == 0x49 && data[3] == 0x46 && data[8]
        == 0x41 && data[9] == 0x56 && data[10] == 0x30 && data[11] == 0x31;
    proof {
        if ok {
            assert(data@.subrange(0, 4) =~= magic());
            assert(data@.subrange(8, 12) =~= fourcc());
        } else if data@.subrange(0, 4) == magic() {
            assert(data@.subrange(0, 4)[0] == data@[0]);
            assert(data@.subrange(0, 4)[1] == data@[1]);
            assert(data@.subrange(0, 4)[2] == data@[2]);
            assert(data@.subrange(0, 4)[3] == data@[3]);
            assert(data@.subrange(8, 12)[0] == data@[8]);
            assert(data@.subrange(8, 12)[1] == data@[9]);
            assert(data@.subrange(8, 12)[2] == data@[10]);
            assert(data@.subrange(8, 12)[3] == data@[11]);
        }
    }
    ok
}

/// Reads an IVF stream: the header fields, then every complete frame
/// record. A trailing record whose payload is cut short ends the stream.
/// The frame-count field is reported but not relied on.
pub fn parse_ivf(data: &[u8]) -> (r: Result<(IvfHeader, Vec<IvfFrame>), Error>)
    ensures
        r is Err <==> !accepts_header(data@),
        r is Err ==> r == Err::<(IvfHeader, Vec<IvfFrame>), Error>(Error::Format),
        r matches Ok((h, frames)) ==> {
            &&& h == header_of(data@)
            &&& frames_view(data@, frames@) == parse_records(data@, 32)
            &&& forall|i: int|
                0 <= i < frames@.len() ==> #[trigger] frames@[i].offset + frames@[i].size
                    <= data@.len()
        },
{
    if !has_ivf_signature(data) {
        return Err(Error::Format);
    }
    proof {
        lemma_pow256_values();
        lemma_le_value_bound(data@.subrange(12, 14));
        lemma_le_value_bound(data@.subrange(14, 16));
        lemma_le_value_bound(data@.subrange(16, 20));
        lemma_le_value_bound(data@.subrange(20, 24));
        lemma_le_value_bound(data@.subrange(24, 28));
    }
    let header = IvfHeader {
        width: get_le(data, 12, 2) as u16,
        height: get_le(data, 14, 2) as u16,
        frame_rate: get_le(data, 16, 4) as u32,
        time_scale: get_le(data, 20, 4) as u32,
        frame_count: get_le(data, 24, 4) as u32,
    };
    let len = data.len();
    let mut frames: Vec<IvfFrame> = Vec::new();
    let mut off: usize = HEADER_LEN;
    loop
        invariant_except_break
            32 <= off <= len,
            len == data@.len(),
            frames_view(data@, frames@) + parse_records(data@, off as int) == parse_records(
                data@,
                32,
            ),
            forall|i: int|
                0 <= i < frames@.len() ==> #[trigger] frames@[i].offset + frames@[i].size
                    <= data@.len(),
        ensures
            frames_view(data@, frames@) == parse_records(data@, 32),
            forall|i: int|
                0 <= i < frames@.len() ==> #[trigger] frames@[i].offset + frames@[i].size
                    <= data@.len(),
        decreases len - off,
    {
        if len - off < RECORD_HEADER_LEN {
            assert(parse_records(data@, off as int) =~= Seq::<(Seq<u8>, u64)>::empty());
            assert(frames_view(data@, frames@) =~= frames_view(data@, frames@) + Seq::<
                (Seq<u8>, u64),
            >::empty());
            break;
        }
        let size = get_le(data, off, 4);
        let timestamp = get_le(data, off + 4, 8);
        proof {
            lemma_le_value_bound(data@.subrange(off as int, off + 4));
        }
        if size > (len - off - RECORD_HEADER_LEN) as u64 {
            assert(parse_records(data@, off as int) =~= Seq::<(Seq<u8>, u64)>::empty());
            assert(frames_view(data@, frames@) =~= frames_view(data@, frames@) + Seq::<
                (Seq<u8>, u64),
            >::empty());
            break;
        }
        let size = size as usize;
        let frame = IvfFrame { offset: off + RECORD_HEADER_LEN, size, timestamp };
        let ghost before = frames@;
        frames.push(frame);
        proof {
            assert(frames_view(data@, frames@) =~= frames_view(data@, before).push(
                frame_view(data@, frame),
            ));
            let next = off + 12 + size;
            assert(parse_records(data@, off as int) == seq![frame_view(data@, frame)]
                + parse_records(data@, next));
            assert(frames_view(data@, frames@) + parse_records(data@, next) =~= frames_view(
                data@,
                before,
            ) + parse_records(data@, off as int));
        }
        off = off + RECORD_HEADER_LEN + size;
    }
    Ok((header, frames))
}

impl IvfFrame {
    /// The payload of this frame inside `data`, without copying.
    pub fn payload<'a>(&self, data: &'a [u8]) -> (r: &'a [u8])
        requires
            self.offset + self.size <= data@.len(),
        ensures
            r@ == frame_view(data@, *self).0,
    {
        // The call states that the length fits a usize, so the sum below does.
        let _len = data.len();
        vstd::slice::slice_subrange(data, self.offset, self.offset + self.size)
    }
}

} // verus!
