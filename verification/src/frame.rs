//! The envelope that carries every message on the stream.
//!
//! A frame is two big-endian `u32` length fields, then the JSON section, then
//! the binary section. The first field counts every byte after the two
//! fields, the second counts the JSON section only.

use vstd::prelude::*;

verus! {

/// Number of bytes taken by the two length fields.
pub const HEADER_LEN: usize = 8;

/// Why a frame could not be built or taken apart.
#[derive(Debug, Clone, Copy, PartialEq, Eq, Structural)]
pub enum FrameError {
    /// Fewer than eight bytes: the length fields are incomplete.
    Truncated,
    /// The JSON section is empty.
    EmptyJson,
    /// The JSON length field is larger than the total length field.
    JsonExceedsTotal,
    /// The bytes after the length fields are not as many as the total says.
    LengthMismatch,
    /// The two sections together do not fit in a `u32`.
    TooLarge,
}

/// The four bytes of `n`, most significant first.
pub open spec fn be32(n: u32) -> Seq<u8> {
    seq![
        (n / 0x100_0000) as u8,
        ((n / 0x1_0000) % 0x100) as u8,
        ((n / 0x100) % 0x100) as u8,
        (n % 0x100) as u8,
    ]
}

/// The number whose big-endian bytes are the first four of `b`.
pub open spec fn from_be32(b: Seq<u8>) -> u32
    recommends
        b.len() >= 4,
{
    (b[0] as int * 0x100_0000 + b[1] as int * 0x1_0000 + b[2] as int * 0x100 + b[3] as int) as u32
}

/// Reading back the bytes of a number gives the number.
pub proof fn lemma_be32_roundtrip(n: u32)
    ensures
        be32(n).len() == 4,
        from_be32(be32(n)) == n,
{
    let v = n as int;
    let q1 = v / 0x100;
    let q2 = v / 0x1_0000;
    let q3 = v / 0x100_0000;
    assert(q2 == q1 / 0x100);
    assert(q3 == q2 / 0x100);
    assert(v == q1 * 0x100 + v % 0x100);
    assert(q1 == q2 * 0x100 + q1 % 0x100);
    assert(q2 == q3 * 0x100 + q2 % 0x100);
    assert(0 <= q3 < 0x100);
    assert(v == q3 * 0x100_0000 + (q2 % 0x100) * 0x1_0000 + (q1 % 0x100) * 0x100 + v % 0x100);
}

/// Writing the number read from four bytes gives the four bytes.
pub proof fn lemma_from_be32_roundtrip(b: Seq<u8>)
    requires
        b.len() == 4,
    ensures
        be32(from_be32(b)) == b,
{
    let (b0, b1, b2, b3) = (b[0] as int, b[1] as int, b[2] as int, b[3] as int);
    lemma_digits(b0, b1, b2, b3);
    assert(be32(from_be32(b)) =~= b);
}

/// Four base-256 digits are recovered from their sum by division.
proof fn lemma_digits(b0: int, b1: int, b2: int, b3: int)
    requires
        0 <= b0 < 0x100,
        0 <= b1 < 0x100,
        0 <= b2 < 0x100,
        0 <= b3 < 0x100,
    ensures
        ({
            let v = b0 * 0x100_0000 + b1 * 0x1_0000 + b2 * 0x100 + b3;
            &&& 0 <= v <= u32::MAX
            &&& v / 0x100_0000 == b0
            &&& (v / 0x1_0000) % 0x100 == b1
            &&& (v / 0x100) % 0x100 == b2
            &&& v % 0x100 == b3
        }),
{
    let v = b0 * 0x100_0000 + b1 * 0x1_0000 + b2 * 0x100 + b3;
    assert(v / 0x100_0000 == b0);
    assert(v / 0x1_0000 == b0 * 0x100 + b1);
    assert(v / 0x100 == b0 * 0x1_0000 + b1 * 0x100 + b2);
}

/// Appends the big-endian bytes of `n` to `out`.
pub fn push_be32(out: &mut Vec<u8>, n: u32)
    ensures
        final(out)@ == old(out)@ + be32(n),
{
    out.push((n / 0x100_0000) as u8);
    out.push(((n / 0x1_0000) % 0x100) as u8);
    out.push(((n / 0x100) % 0x100) as u8);
    out.push((n % 0x100) as u8);
    assert(out@ =~= old(out)@ + be32(n));
}

/// Reads the big-endian `u32` that starts at `at`.
pub fn read_be32(bytes: &[u8], at: usize) -> (n: u32)
    requires
        at + 4 <= bytes@.len(),
    ensures
        n == from_be32(bytes@.subrange(at as int, at + 4)),
{
    let b0: u32 = bytes[at] as u32;
    let b1: u32 = bytes[at + 1] as u32;
    let b2: u32 = bytes[at + 2] as u32;
    let b3: u32 = bytes[at + 3] as u32;
    b0 * 0x100_0000 + b1 * 0x1_0000 + b2 * 0x100 + b3
}

/// The two length fields of a frame, kept consistent: the total is never
/// smaller than the JSON length, and the JSON section is never empty.
#[derive(Debug, Clone, Copy, PartialEq, Eq, Structural)]
pub struct FrameHeader {
    total_size: u32,
    json_size: u32,
}

impl FrameHeader {
    /// What every header made by this module satisfies.
    pub closed spec fn wf(self) -> bool {
        0 < self.json_size <= self.total_size
    }

    /// The total length field, as a number.
    pub closed spec fn total(self) -> nat {
        self.total_size as nat
    }

    /// The JSON length field, as a number.
    pub closed spec fn json(self) -> nat {
        self.json_size as nat
    }

    /// The eight bytes of the header on the wire.
    pub closed spec fn bytes(self) -> Seq<u8> {
        be32(self.total_size) + be32(self.json_size)
    }

    /// A well-formed header keeps its fields in order.
    pub proof fn lemma_wf(self)
        requires
            self.wf(),
        ensures
            0 < self.json() <= self.total() <= u32::MAX,
            self.bytes().len() == 8,
    {
    }

    /// Makes the header for a JSON section of `json_len` bytes followed by a
    /// binary section of `binary_len` bytes. The total is computed here, so
    /// the two fields cannot disagree.
    pub fn new(json_len: usize, binary_len: usize) -> (r: Result<FrameHeader, FrameError>)
        ensures
            json_len == 0 ==> r == Err::<FrameHeader, FrameError>(FrameError::EmptyJson),
            json_len > 0 && json_len + binary_len > u32::MAX ==> r == Err::<
                FrameHeader,
                FrameError,
            >(FrameError::TooLarge),
            json_len > 0 && json_len + binary_len <= u32::MAX ==> r is Ok && r->Ok_0.wf()
                && r->Ok_0.json() == json_len && r->Ok_0.total() == json_len + binary_len,
    {
        if json_len == 0 {
            return Err(FrameError::EmptyJson);
        }
        let limit: usize = 0xffff_ffff;
        if json_len > limit || binary_len > limit - json_len {
            return Err(FrameError::TooLarge);
        }
        Ok(FrameHeader { total_size: (json_len + binary_len) as u32, json_size: json_len as u32 })
    }

    /// The total length field.
    pub fn total_size(&self) -> (n: u32)
        ensures
            n == self.total(),
    {
        self.total_size
    }

    /// The JSON length field.
    pub fn json_size(&self) -> (n: u32)
        ensures
            n == self.json(),
    {
        self.json_size
    }

    /// Length of the binary section: the total less the JSON section.
    pub fn binary_size(&self) -> (n: u32)
        requires
            self.wf(),
        ensures
            n == self.total() - self.json(),
    {
        self.total_size - self.json_size
    }

    /// The header as it goes on the wire.
    pub fn to_bytes(&self) -> (out: Vec<u8>)
        ensures
            out@ == self.bytes(),
            out@.len() == 8,
    {
        let mut out: Vec<u8> = Vec::new();
        push_be32(&mut out, self.total_size);
        push_be32(&mut out, self.json_size);
        assert(out@ =~= self.bytes());
        out
    }

    /// What `parse` makes of the first eight bytes of a message.
    pub open spec fn parse_spec(bytes: Seq<u8>) -> Result<(nat, nat), FrameError> {
        if bytes.len() < 8 {
            Err(FrameError::Truncated)
        } else if from_be32(bytes.subrange(4, 8)) == 0 {
            Err(FrameError::EmptyJson)
        } else if from_be32(bytes.subrange(4, 8)) > from_be32(bytes.subrange(0, 4)) {
            Err(FrameError::JsonExceedsTotal)
        } else {
            Ok((from_be32(bytes.subrange(0, 4)) as nat, from_be32(bytes.subrange(4, 8)) as nat))
        }
    }

    /// Reads the two length fields from the start of `bytes`.
    pub fn parse(bytes: &[u8]) -> (r: Result<FrameHeader, FrameError>)
        ensures
            match Self::parse_spec(bytes@) {
                Ok((total, json)) => r is Ok && r->Ok_0.wf() && r->Ok_0.total() == total
                    && r->Ok_0.json() == json,
                Err(e) => r == Err::<FrameHeader, FrameError>(e),
            },
    {
        if bytes.len() < 8 {
            return Err(FrameError::Truncated);
        }
        let total_size: u32 = read_be32(bytes, 0);
        let json_size: u32 = read_be32(bytes, 4);
        if json_size == 0 {
            return Err(FrameError::EmptyJson);
        }
        if json_size > total_size {
            return Err(FrameError::JsonExceedsTotal);
        }
        Ok(FrameHeader { total_size, json_size })
    }
}

/// A message taken apart: its JSON section and its binary section.
#[derive(Debug, Clone)]
pub struct Frame {
    pub json: Vec<u8>,
    pub binary: Vec<u8>,
}

/// The bytes of the frame that carries `json` followed by `binary`.
pub open spec fn frame_bytes(json: Seq<u8>, binary: Seq<u8>) -> Seq<u8> {
    be32((json.len() + binary.len()) as u32) + be32(json.len() as u32) + json + binary
}

/// What `encode_frame` returns for the two sections.
pub open spec fn encode_spec(json: Seq<u8>, binary: Seq<u8>) -> Result<Seq<u8>, FrameError> {
    if json.len() == 0 {
        Err(FrameError::EmptyJson)
    } else if json.len() + binary.len() > u32::MAX {
        Err(FrameError::TooLarge)
    } else {
        Ok(frame_bytes(json, binary))
    }
}

/// What `decode_frame` returns for a whole message: the JSON section and the
/// binary section, or the reason the message is rejected.
pub open spec fn decode_spec(bytes: Seq<u8>) -> Result<(Seq<u8>, Seq<u8>), FrameError> {
    match FrameHeader::parse_spec(bytes) {
        Err(e) => Err(e),
        Ok((total, json)) => if bytes.len() - 8 != total {
            Err(FrameError::LengthMismatch)
        } else {
            Ok(
                (
                    bytes.subrange(8, 8 + json as int),
                    bytes.subrange(8 + json as int, bytes.len() as int),
                ),
            )
        },
    }
}

/// Copies `bytes[from..to]` into a new vector.
pub fn copy_range(bytes: &[u8], from: usize, to: usize) -> (out: Vec<u8>)
    requires
        from <= to <= bytes@.len(),
    ensures
        out@ == bytes@.subrange(from as int, to as int),
{
    let mut out: Vec<u8> = Vec::new();
    let mut i: usize = from;
    while i < to
        invariant
            from <= i <= to <= bytes@.len(),
            out@ == bytes@.subrange(from as int, i as int),
        decreases to - i,
    {
        out.push(bytes[i]);
        i += 1;
        assert(out@ =~= bytes@.subrange(from as int, i as int));
    }
    out
}

/// Appends every byte of `bytes` to `out`.
pub fn push_all(out: &mut Vec<u8>, bytes: &[u8])
    ensures
        final(out)@ == old(out)@ + bytes@,
{
    let mut i: usize = 0;
    while i < bytes.len()
        invariant
            i <= bytes@.len(),
            out@ == old(out)@ + bytes@.subrange(0, i as int),
        decreases bytes@.len() - i,
    {
        out.push(bytes[i]);
        i += 1;
        assert(out@ =~= old(out)@ + bytes@.subrange(0, i as int));
    }
    assert(bytes@.subrange(0, bytes@.len() as int) =~= bytes@);
}

/// Frames a message: the two length fields, then `json`, then `binary`.
///
/// The total length field is the JSON length plus the binary length. An empty
/// JSON section and sections too long for the length fields are refused.
pub fn encode_frame(json: &[u8], binary: &[u8]) -> (r: Result<Vec<u8>, FrameError>)
    ensures
        match encode_spec(json@, binary@) {
            Ok(bytes) => r is Ok && r->Ok_0@ == bytes,
            Err(e) => r is Err && r->Err_0 == e,
        },
{
    let header = match FrameHeader::new(json.len(), binary.len()) {
        Ok(h) => h,
        Err(e) => {
            return Err(e);
        },
    };
    let mut out: Vec<u8> = header.to_bytes();
    push_all(&mut out, json);
    push_all(&mut out, binary);
    assert(out@ =~= frame_bytes(json@, binary@));
    Ok(out)
}

/// Takes a whole message apart. The message must be exactly as long as its
/// total length field says.
pub fn decode_frame(bytes: &[u8]) -> (r: Result<Frame, FrameError>)
    ensures
        match decode_spec(bytes@) {
            Ok((json, binary)) => r is Ok && r->Ok_0.json@ == json && r->Ok_0.binary@ == binary,
            Err(e) => r is Err && r->Err_0 == e,
        },
{
    let header = match FrameHeader::parse(bytes) {
        Ok(h) => h,
        Err(e) => {
            return Err(e);
        },
    };
    let total: usize = header.total_size() as usize;
    let json_len: usize = header.json_size() as usize;
    if bytes.len() - 8 != total {
        return Err(FrameError::LengthMismatch);
    }
    let json = copy_range(bytes, 8, 8 + json_len);
    let binary = copy_range(bytes, 8 + json_len, bytes.len());
    Ok(Frame { json, binary })
}

/// On every frame that `encode_frame` builds, the total length field is the
/// JSON length field plus the length of the binary section, and the frame is
/// eight bytes longer than its total.
pub proof fn lemma_frame_sizes(json: Seq<u8>, binary: Seq<u8>)
    requires
        encode_spec(json, binary) is Ok,
    ensures
        ({
            let bytes = encode_spec(json, binary)->Ok_0;
            &&& bytes.len() == 8 + json.len() + binary.len()
            &&& from_be32(bytes.subrange(4, 8)) == json.len()
            &&& from_be32(bytes.subrange(0, 4)) == from_be32(bytes.subrange(4, 8)) + binary.len()
        }),
{
    let bytes = frame_bytes(json, binary);
    let total = (json.len() + binary.len()) as u32;
    let jlen = json.len() as u32;
    assert(bytes.subrange(0, 4) =~= be32(total));
    assert(bytes.subrange(4, 8) =~= be32(jlen));
    lemma_be32_roundtrip(total);
    lemma_be32_roundtrip(jlen);
}

/// Taking apart a frame that was built from two sections gives those two
/// sections back, byte for byte.
pub proof fn lemma_decode_encode(json: Seq<u8>, binary: Seq<u8>)
    requires
        encode_spec(json, binary) is Ok,
    ensures
        decode_spec(encode_spec(json, binary)->Ok_0) == Ok::<(Seq<u8>, Seq<u8>), FrameError>(
            (json, binary),
        ),
{
    let bytes = frame_bytes(json, binary);
    lemma_frame_sizes(json, binary);
    assert(bytes.subrange(8, 8 + json.len() as int) =~= json);
    assert(bytes.subrange(8 + json.len() as int, bytes.len() as int) =~= binary);
}

/// Building a frame from the two sections of an accepted message gives the
/// message back, byte for byte.
pub proof fn lemma_encode_decode(bytes: Seq<u8>)
    requires
        decode_spec(bytes) is Ok,
    ensures
        encode_spec(decode_spec(bytes)->Ok_0.0, decode_spec(bytes)->Ok_0.1) == Ok::<
            Seq<u8>,
            FrameError,
        >(bytes),
{
    let (json, binary) = decode_spec(bytes)->Ok_0;
    lemma_from_be32_roundtrip(bytes.subrange(0, 4));
    lemma_from_be32_roundtrip(bytes.subrange(4, 8));
    assert(frame_bytes(json, binary) =~= bytes);
}

} // verus!
