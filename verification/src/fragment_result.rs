//! The message by which a worker hands back the pixels of a fragment.
//!
//! The JSON section describes the fragment and says where, in the binary
//! section, the task's identifier and the pixels lie. The binary section is
//! the identifier followed by the pixels, eight bytes each: the big-endian
//! bits of `zn`, then those of `count`.

use crate::error::ProtocolError;
use crate::frame::{
    be32, copy_range, decode_frame, encode_frame, from_be32, lemma_be32_roundtrip, push_all,
    push_be32, read_be32,
};
use crate::fragment_task::FragmentTask;
use crate::json::{field, field_spec};
use crate::shared_structs::{PixelData, PixelIntensity, Point, Range, Resolution, U8Data};
use vstd::prelude::*;
use vstd::string::*;

verus! {

/// Number of bytes one pixel takes in the binary section.
pub const PIXEL_LEN: usize = 8;

/// Why a result could not be built.
#[derive(Debug, Clone, Copy, PartialEq, Eq, Structural)]
pub enum ResultError {
    /// No identifier run was given.
    MissingId,
    /// No resolution was given.
    MissingResolution,
    /// No range was given.
    MissingRange,
    /// No pixel run was given.
    MissingPixels,
}

impl ResultError {
    /// The text of the error's message.
    pub open spec fn message_spec(self) -> Seq<char> {
        match self {
            ResultError::MissingId => "Id is missing"@,
            ResultError::MissingResolution => "Resolution is missing"@,
            ResultError::MissingRange => "Range is missing"@,
            ResultError::MissingPixels => "Pixels is missing"@,
        }
    }

    /// A sentence that says what is wrong.
    pub fn message(&self) -> (s: String)
        ensures
            s@ == self.message_spec(),
    {
        match self {
            ResultError::MissingId => String::from_str("Id is missing"),
            ResultError::MissingResolution => String::from_str("Resolution is missing"),
            ResultError::MissingRange => String::from_str("Range is missing"),
            ResultError::MissingPixels => String::from_str("Pixels is missing"),
        }
    }
}

/// The JSON section of a result message, as a value.
#[derive(Debug, Clone, Copy, PartialEq, Eq, Structural)]
pub struct FragmentResult {
    pub id: U8Data,
    pub resolution: Resolution,
    pub range: Range,
    pub pixels: PixelData,
}

/// The eight bytes of one pixel.
pub open spec fn pixel_bytes(p: PixelIntensity) -> Seq<u8> {
    be32(p.zn) + be32(p.count)
}

/// The bytes of a row of pixels, one after the other.
pub open spec fn pixels_bytes(pixels: Seq<PixelIntensity>) -> Seq<u8>
    decreases pixels.len(),
{
    if pixels.len() == 0 {
        Seq::<u8>::empty()
    } else {
        pixels_bytes(pixels.drop_last()) + pixel_bytes(pixels.last())
    }
}

/// The pixel whose bytes start `at` bytes into `bytes`.
pub open spec fn pixel_at(bytes: Seq<u8>, at: int) -> PixelIntensity {
    PixelIntensity {
        zn: from_be32(bytes.subrange(at, at + 4)),
        count: from_be32(bytes.subrange(at + 4, at + 8)),
    }
}

/// The pixels that `bytes` holds, eight bytes each. Bytes left over at the end
/// are not read.
pub open spec fn pixels_of(bytes: Seq<u8>) -> Seq<PixelIntensity>
    decreases bytes.len(),
{
    if bytes.len() < 8 {
        Seq::<PixelIntensity>::empty()
    } else {
        let whole = (bytes.len() / 8) * 8;
        pixels_of(bytes.subrange(0, whole - 8)).push(pixel_at(bytes, whole - 8))
    }
}

/// The binary section of a result: the identifier, then the pixels.
pub open spec fn result_body(id: Seq<u8>, pixels: Seq<PixelIntensity>) -> Seq<u8> {
    id + pixels_bytes(pixels)
}

/// A row of pixels takes eight bytes per pixel.
pub proof fn lemma_pixels_bytes_len(pixels: Seq<PixelIntensity>)
    ensures
        pixels_bytes(pixels).len() == 8 * pixels.len(),
    decreases pixels.len(),
{
    if pixels.len() > 0 {
        lemma_pixels_bytes_len(pixels.drop_last());
    }
}

/// As many pixels are read as there are whole groups of eight bytes.
pub proof fn lemma_pixels_of_len(bytes: Seq<u8>)
    ensures
        pixels_of(bytes).len() == bytes.len() / 8,
    decreases bytes.len(),
{
    if bytes.len() >= 8 {
        let whole = (bytes.len() / 8) * 8;
        lemma_pixels_of_len(bytes.subrange(0, whole - 8));
    }
}

/// Reading the bytes of a row of pixels gives the row back.
pub proof fn lemma_pixels_roundtrip(pixels: Seq<PixelIntensity>)
    ensures
        pixels_of(pixels_bytes(pixels)) == pixels,
    decreases pixels.len(),
{
    if pixels.len() > 0 {
        let init = pixels.drop_last();
        let last = pixels.last();
        let bytes = pixels_bytes(pixels);
        lemma_pixels_bytes_len(pixels);
        lemma_pixels_bytes_len(init);
        lemma_pixels_roundtrip(init);
        let whole = (bytes.len() / 8) * 8;
        assert(whole == bytes.len());
        assert(bytes.subrange(0, whole - 8) =~= pixels_bytes(init));
        assert(bytes.subrange(whole - 8, whole - 8 + 4) =~= be32(last.zn));
        assert(bytes.subrange(whole - 8 + 4, whole - 8 + 8) =~= be32(last.count));
        lemma_be32_roundtrip(last.zn);
        lemma_be32_roundtrip(last.count);
        assert(pixel_at(bytes, whole - 8) == last);
        assert(pixels_of(bytes) =~= pixels);
    } else {
        assert(pixels_of(pixels_bytes(pixels)) =~= pixels);
    }
}

/// Appends the bytes of a row of pixels to `out`.
pub fn push_pixels(out: &mut Vec<u8>, pixels: &[PixelIntensity])
    ensures
        final(out)@ == old(out)@ + pixels_bytes(pixels@),
{
    let mut i: usize = 0;
    assert(pixels@.subrange(0, 0) =~= Seq::<PixelIntensity>::empty());
    while i < pixels.len()
        invariant
            i <= pixels@.len(),
            out@ == old(out)@ + pixels_bytes(pixels@.subrange(0, i as int)),
        decreases pixels@.len() - i,
    {
        let p = pixels[i];
        let ghost before = out@;
        push_be32(out, p.zn);
        push_be32(out, p.count);
        proof {
            let next = pixels@.subrange(0, i + 1);
            assert(next.drop_last() =~= pixels@.subrange(0, i as int));
            assert(next.last() == p);
            assert(out@ =~= old(out)@ + pixels_bytes(next));
        }
        i += 1;
    }
    assert(pixels@.subrange(0, pixels@.len() as int) =~= pixels@);
}

/// Reads the pixels that `bytes` holds from `from` on.
pub fn read_pixels(bytes: &[u8], from: usize) -> (pixels: Vec<PixelIntensity>)
    requires
        from <= bytes@.len(),
    ensures
        pixels@ == pixels_of(bytes@.subrange(from as int, bytes@.len() as int)),
{
    let ghost tail = bytes@.subrange(from as int, bytes@.len() as int);
    let n: usize = (bytes.len() - from) / 8;
    let mut pixels: Vec<PixelIntensity> = Vec::new();
    let mut i: usize = 0;
    assert(pixels@ =~= pixels_of(tail.subrange(0, 0)));
    while i < n
        invariant
            from <= bytes@.len(),
            tail == bytes@.subrange(from as int, bytes@.len() as int),
            n == (bytes@.len() - from) / 8,
            bytes@.len() <= usize::MAX,
            i <= n,
            pixels@ == pixels_of(tail.subrange(0, 8 * i)),
        decreases n - i,
    {
        assert(8 * (i + 1) <= bytes@.len() - from);
        let at: usize = from + 8 * i;
        let zn = read_be32(bytes, at);
        let count = read_be32(bytes, at + 4);
        pixels.push(PixelIntensity { zn, count });
        proof {
            let head = tail.subrange(0, 8 * (i + 1));
            assert(head.len() == 8 * (i + 1));
            assert((head.len() / 8) * 8 == head.len());
            assert(head.subrange(0, 8 * i) =~= tail.subrange(0, 8 * i));
            assert(head.subrange(8 * i, 8 * i + 4) =~= bytes@.subrange(at as int, at + 4));
            assert(head.subrange(8 * i + 4, 8 * i + 8) =~= bytes@.subrange(at + 4, at + 8));
            assert(pixels@ =~= pixels_of(head));
        }
        i += 1;
    }
    proof {
        lemma_pixels_of_prefix(tail);
    }
    pixels
}

/// Bytes after the last whole group of eight do not change what is read.
pub proof fn lemma_pixels_of_prefix(bytes: Seq<u8>)
    ensures
        pixels_of(bytes) == pixels_of(bytes.subrange(0, 8 * (bytes.len() as int / 8))),
{
    let whole = (bytes.len() as int / 8) * 8;
    let head = bytes.subrange(0, whole);
    if bytes.len() >= 8 {
        assert((head.len() / 8) * 8 == whole);
        assert(head.subrange(0, whole - 8) =~= bytes.subrange(0, whole - 8));
        assert(head.subrange(whole - 8, whole - 8 + 4) =~= bytes.subrange(
            whole - 8,
            whole - 8 + 4,
        ));
        assert(head.subrange(whole - 8 + 4, whole - 8 + 8) =~= bytes.subrange(
            whole - 8 + 4,
            whole - 8 + 8,
        ));
    }
}

/// Every pixel of the row is finite.
pub open spec fn all_finite(pixels: Seq<PixelIntensity>) -> bool {
    forall|i: int| 0 <= i < pixels.len() ==> (#[trigger] pixels[i]).is_finite()
}

/// Tells whether every pixel of the row is finite.
pub fn check_all_finite(pixels: &[PixelIntensity]) -> (r: bool)
    ensures
        r == all_finite(pixels@),
{
    let mut i: usize = 0;
    while i < pixels.len()
        invariant
            i <= pixels@.len(),
            all_finite(pixels@.subrange(0, i as int)),
        decreases pixels@.len() - i,
    {
        if !pixels[i].has_finite_fields() {
            return false;
        }
        i += 1;
        assert forall|k: int| 0 <= k < i implies (#[trigger] pixels@.subrange(
            0,
            i as int,
        )[k]).is_finite() by {
            if k < i - 1 {
                assert(pixels@.subrange(0, i - 1)[k].is_finite());
            }
        }
    }
    assert(pixels@.subrange(0, pixels@.len() as int) =~= pixels@);
    true
}

/// Every pixel of the row is well formed: finite, with `zn` zero or more
/// and `count` between zero and one.
pub open spec fn all_valid(pixels: Seq<PixelIntensity>) -> bool {
    forall|i: int| 0 <= i < pixels.len() ==> (#[trigger] pixels[i]).wf()
}

/// A row of well-formed pixels is a row of finite pixels.
pub proof fn lemma_valid_is_finite(pixels: Seq<PixelIntensity>)
    requires
        all_valid(pixels),
    ensures
        all_finite(pixels),
{
    assert forall|i: int| 0 <= i < pixels.len() implies (#[trigger] pixels[i]).is_finite() by {
        assert(pixels[i].wf());
    }
}

/// Tells whether every pixel of the row is well formed.
pub fn check_all_valid(pixels: &[PixelIntensity]) -> (r: bool)
    ensures
        r == all_valid(pixels@),
{
    let mut i: usize = 0;
    while i < pixels.len()
        invariant
            i <= pixels@.len(),
            all_valid(pixels@.subrange(0, i as int)),
        decreases pixels@.len() - i,
    {
        if !pixels[i].is_valid() {
            return false;
        }
        i += 1;
        assert forall|k: int| 0 <= k < i implies (#[trigger] pixels@.subrange(
            0,
            i as int,
        )[k]).wf() by {
            if k < i - 1 {
                assert(pixels@.subrange(0, i - 1)[k].wf());
            }
        }
    }
    assert(pixels@.subrange(0, pixels@.len() as int) =~= pixels@);
    true
}

/// A result message taken apart.
#[derive(Debug, Clone)]
pub struct ResultMessage {
    /// The JSON section, as a value.
    pub result: FragmentResult,
    /// The identifier of the task that the result answers.
    pub id: Vec<u8>,
    /// The pixels, row by row.
    pub pixels: Vec<PixelIntensity>,
}

impl FragmentResult {
    /// The fragment is well formed, the identifier starts the binary
    /// section, the pixels follow it, and there is one pixel for every point
    /// of the resolution.
    pub open spec fn wf(self) -> bool {
        &&& self.resolution.wf()
        &&& self.range.wf()
        &&& self.id.offset == 0
        &&& self.pixels.offset == self.id.count
        &&& self.pixels.count == self.resolution.pixels()
    }

    /// The length of the binary section that the result describes.
    pub open spec fn body_len(self) -> nat {
        self.id.count as nat + 8 * (self.pixels.count as nat)
    }

    /// Tells whether the result is well formed.
    pub fn is_valid(&self) -> (r: bool)
        ensures
            r == self.wf(),
    {
        self.resolution.is_valid() && self.range.is_valid() && self.id.offset == 0
            && self.pixels.offset == self.id.count && self.pixels.count
            == self.resolution.pixel_count()
    }

    /// A builder with no field set.
    pub fn builder() -> (b: FragmentResultBuilder)
        ensures
            b == (FragmentResultBuilder { id: None, resolution: None, range: None, pixels: None }),
    {
        FragmentResultBuilder { id: None, resolution: None, range: None, pixels: None }
    }

    /// What [`FragmentResult::for_task`] returns: the description of the
    /// result of `task` when its identifier has `id_len` bytes.
    pub open spec fn for_task_spec(task: FragmentTask, id_len: nat) -> Option<FragmentResult> {
        if id_len > u32::MAX {
            None
        } else {
            Some(
                FragmentResult {
                    id: U8Data { offset: 0, count: id_len as u32 },
                    resolution: task.resolution,
                    range: task.range,
                    pixels: PixelData {
                        offset: id_len as u32,
                        count: task.resolution.pixels() as u32,
                    },
                },
            )
        }
    }

    /// Describes the result of a task: the task's resolution and range, the
    /// identifier at the start of the binary section, and right after it one
    /// pixel for every point of the resolution. `None` where the identifier
    /// is too long for its length field.
    pub fn for_task(task: &FragmentTask, id_len: usize) -> (r: Option<FragmentResult>)
        ensures
            r == Self::for_task_spec(*task, id_len as nat),
            r is Some && task.wf() ==> r->Some_0.wf(),
    {
        if id_len > 0xffff_ffff {
            return None;
        }
        let id_count: u32 = id_len as u32;
        let built = FragmentResult::builder().with_id(0, id_count).with_resolution(
            task.resolution.nx,
            task.resolution.ny,
        ).with_range(
            task.range.min.x,
            task.range.min.y,
            task.range.max.x,
            task.range.max.y,
        ).with_pixels(id_count, task.resolution.pixel_count()).build();
        match built {
            Ok(result) => Some(result),
            Err(_) => None,
        }
    }

    /// The fields of a result as read from an object, before they are checked.
    pub open spec fn fields_spec(v: serde_json::Value) -> Result<FragmentResult, ProtocolError> {
        match field_spec(v, "id"@) {
            Err(e) => Err(e),
            Ok(id_value) => match U8Data::from_value_spec(id_value) {
                Err(e) => Err(e),
                Ok(id) => match field_spec(v, "resolution"@) {
                    Err(e) => Err(e),
                    Ok(resolution_value) => match Resolution::from_value_spec(resolution_value) {
                        Err(e) => Err(e),
                        Ok(resolution) => match field_spec(v, "range"@) {
                            Err(e) => Err(e),
                            Ok(range_value) => match Range::from_value_spec(range_value) {
                                Err(e) => Err(e),
                                Ok(range) => match field_spec(v, "pixels"@) {
                                    Err(e) => Err(e),
                                    Ok(pixels_value) => match PixelData::from_value_spec(
                                        pixels_value,
                                    ) {
                                        Err(e) => Err(e),
                                        Ok(pixels) => Ok(
                                            FragmentResult { id, resolution, range, pixels },
                                        ),
                                    },
                                },
                            },
                        },
                    },
                },
            },
        }
    }

    /// What [`FragmentResult::from_value`] makes of a document: the fields,
    /// refused with `InvalidValue` where they are not well formed.
    pub open spec fn from_value_spec(v: serde_json::Value) -> Result<
        FragmentResult,
        ProtocolError,
    > {
        match Self::fields_spec(v) {
            Err(e) => Err(e),
            Ok(result) => if result.wf() {
                Ok(result)
            } else {
                Err(ProtocolError::InvalidValue)
            },
        }
    }

    /// Reads a result from an object with the members `id`, `resolution`,
    /// `range` and `pixels`. The result that comes back is well formed.
    pub fn from_value(v: &serde_json::Value) -> (r: Result<FragmentResult, ProtocolError>)
        ensures
            r == Self::from_value_spec(*v),
            r is Ok ==> r->Ok_0.wf(),
    {
        let id = U8Data::from_value(field(v, "id")?)?;
        let resolution = Resolution::from_value(field(v, "resolution")?)?;
        let range = Range::from_value(field(v, "range")?)?;
        let pixels = PixelData::from_value(field(v, "pixels")?)?;
        let result = FragmentResult { id, resolution, range, pixels };
        if result.is_valid() {
            Ok(result)
        } else {
            Err(ProtocolError::InvalidValue)
        }
    }

    /// What [`FragmentResult::from_json`] makes of a JSON section.
    pub open spec fn from_json_spec(json: Seq<u8>) -> Result<FragmentResult, ProtocolError> {
        match crate::json::parse_spec(json) {
            Err(e) => Err(e),
            Ok(v) => match field_spec(v, "FragmentResult"@) {
                Err(e) => Err(e),
                Ok(body) => Self::from_value_spec(body),
            },
        }
    }

    /// Reads a result from the JSON section `{"FragmentResult":{..}}`.
    pub fn from_json(json: &[u8]) -> (r: Result<FragmentResult, ProtocolError>)
        ensures
            r == Self::from_json_spec(json@),
            r is Ok ==> r->Ok_0.wf(),
    {
        let v = crate::json::parse(json)?;
        FragmentResult::from_value(field(&v, "FragmentResult")?)
    }

    /// What [`FragmentResult::encode`] returns.
    pub open spec fn encode_spec(
        self,
        json: Seq<u8>,
        id: Seq<u8>,
        pixels: Seq<PixelIntensity>,
    ) -> Result<Seq<u8>, ProtocolError> {
        match Self::from_json_spec(json) {
            Err(e) => Err(e),
            Ok(described) => if described != self {
                Err(ProtocolError::InvalidValue)
            } else if id.len() != self.id.count || pixels.len() != self.pixels.count {
                Err(ProtocolError::BinaryLength)
            } else if !all_valid(pixels) {
                Err(ProtocolError::InvalidValue)
            } else {
                match crate::frame::encode_spec(json, result_body(id, pixels)) {
                    Err(e) => Err(ProtocolError::Frame(e)),
                    Ok(bytes) => Ok(bytes),
                }
            },
        }
    }

    /// Builds the whole result message. `json` is the JSON section; it must
    /// describe this very result. The binary section is the identifier
    /// followed by the pixels, and it must be laid out as the result says:
    /// as many identifier bytes and as many pixels as announced, every pixel
    /// well formed.
    pub fn encode(&self, json: &[u8], id: &[u8], pixels: &[PixelIntensity]) -> (r: Result<
        Vec<u8>,
        ProtocolError,
    >)
        ensures
            match self.encode_spec(json@, id@, pixels@) {
                Ok(bytes) => r is Ok && r->Ok_0@ == bytes,
                Err(e) => r is Err && r->Err_0 == e,
            },
    {
        let described = FragmentResult::from_json(json)?;
        if described != *self {
            return Err(ProtocolError::InvalidValue);
        }
        if id.len() != self.id.count as usize || pixels.len() != self.pixels.count as usize {
            return Err(ProtocolError::BinaryLength);
        }
        if !check_all_valid(pixels) {
            return Err(ProtocolError::InvalidValue);
        }
        let mut body: Vec<u8> = Vec::new();
        push_all(&mut body, id);
        push_pixels(&mut body, pixels);
        assert(body@ =~= result_body(id@, pixels@));
        match encode_frame(json, body.as_slice()) {
            Ok(bytes) => Ok(bytes),
            Err(e) => Err(ProtocolError::Frame(e)),
        }
    }

    /// What [`FragmentResult::decode`] makes of a whole message.
    pub open spec fn decode_spec(bytes: Seq<u8>) -> Result<
        (FragmentResult, Seq<u8>, Seq<PixelIntensity>),
        ProtocolError,
    > {
        match crate::frame::decode_spec(bytes) {
            Err(e) => Err(ProtocolError::Frame(e)),
            Ok((json, binary)) => match Self::from_json_spec(json) {
                Err(e) => Err(e),
                Ok(result) => if binary.len() != result.body_len() {
                    Err(ProtocolError::BinaryLength)
                } else {
                    let id = binary.subrange(0, result.id.count as int);
                    let pixels = pixels_of(
                        binary.subrange(result.id.count as int, binary.len() as int),
                    );
                    if all_valid(pixels) {
                        Ok((result, id, pixels))
                    } else {
                        Err(ProtocolError::InvalidValue)
                    }
                },
            },
        }
    }

    /// Takes a whole result message apart: the envelope, the JSON section,
    /// the identifier and the pixels. The binary section must be exactly as
    /// long as the JSON section implies, and every pixel well formed.
    pub fn decode(bytes: &[u8]) -> (r: Result<ResultMessage, ProtocolError>)
        ensures
            match Self::decode_spec(bytes@) {
                Ok((result, id, pixels)) => r is Ok && r->Ok_0.result == result && r->Ok_0.id@ == id
                    && r->Ok_0.pixels@ == pixels && result.wf() && pixels.len()
                    == result.resolution.pixels() && all_valid(pixels),
                Err(e) => r is Err && r->Err_0 == e,
            },
    {
        let frame = match decode_frame(bytes) {
            Ok(f) => f,
            Err(e) => {
                return Err(ProtocolError::Frame(e));
            },
        };
        let result = FragmentResult::from_json(frame.json.as_slice())?;
        let id_len: usize = result.id.count as usize;
        let pixel_count: u64 = result.pixels.count as u64;
        let expected: u64 = result.id.count as u64 + 8 * pixel_count;
        if frame.binary.len() as u64 != expected {
            return Err(ProtocolError::BinaryLength);
        }
        let id = copy_range(frame.binary.as_slice(), 0, id_len);
        let pixels = read_pixels(frame.binary.as_slice(), id_len);
        proof {
            lemma_pixels_of_len(frame.binary@.subrange(id_len as int, frame.binary@.len() as int));
        }
        if !check_all_valid(pixels.as_slice()) {
            return Err(ProtocolError::InvalidValue);
        }
        Ok(ResultMessage { result, id, pixels })
    }

    /// A result message that was built from a description, an identifier and
    /// a row of pixels gives back, when taken apart, that description, that
    /// identifier and those pixels.
    pub proof fn lemma_decode_encode(
        self,
        json: Seq<u8>,
        id: Seq<u8>,
        pixels: Seq<PixelIntensity>,
    )
        requires
            self.encode_spec(json, id, pixels) is Ok,
        ensures
            Self::decode_spec(self.encode_spec(json, id, pixels)->Ok_0) == Ok::<
                (FragmentResult, Seq<u8>, Seq<PixelIntensity>),
                ProtocolError,
            >((self, id, pixels)),
    {
        let body = result_body(id, pixels);
        crate::frame::lemma_decode_encode(json, body);
        lemma_pixels_bytes_len(pixels);
        lemma_pixels_roundtrip(pixels);
        assert(body.subrange(0, id.len() as int) =~= id);
        assert(body.subrange(id.len() as int, body.len() as int) =~= pixels_bytes(pixels));
    }

    /// Every pixel of a result message that is built is finite, its `zn` is
    /// zero or more and its `count` lies between zero and one; and the
    /// message holds one pixel for every point of the resolution.
    pub proof fn lemma_encoded_pixels(
        self,
        json: Seq<u8>,
        id: Seq<u8>,
        pixels: Seq<PixelIntensity>,
    )
        requires
            self.encode_spec(json, id, pixels) is Ok,
        ensures
            all_valid(pixels),
            all_finite(pixels),
            pixels.len() == self.resolution.pixels(),
            self.wf(),
    {
        lemma_valid_is_finite(pixels);
    }

    /// On every result message that is built, the total length field is the
    /// JSON length plus the identifier's length plus eight bytes per pixel.
    pub proof fn lemma_encoded_sizes(
        self,
        json: Seq<u8>,
        id: Seq<u8>,
        pixels: Seq<PixelIntensity>,
    )
        requires
            self.encode_spec(json, id, pixels) is Ok,
        ensures
            ({
                let bytes = self.encode_spec(json, id, pixels)->Ok_0;
                &&& from_be32(bytes.subrange(4, 8)) == json.len()
                &&& from_be32(bytes.subrange(0, 4)) == json.len() + id.len() + 8 * pixels.len()
                &&& bytes.len() == 8 + json.len() + id.len() + 8 * pixels.len()
                &&& pixels.len() == self.resolution.pixels()
            }),
    {
        lemma_pixels_bytes_len(pixels);
        crate::frame::lemma_frame_sizes(json, result_body(id, pixels));
    }
}

/// Collects the fields of a result one at a time.
#[derive(Debug, Clone, Copy, PartialEq, Eq, Structural)]
pub struct FragmentResultBuilder {
    pub id: Option<U8Data>,
    pub resolution: Option<Resolution>,
    pub range: Option<Range>,
    pub pixels: Option<PixelData>,
}

impl FragmentResultBuilder {
    /// What [`FragmentResultBuilder::build`] returns: the result, or the
    /// first field that is missing.
    pub open spec fn build_spec(self) -> Result<FragmentResult, ResultError> {
        if self.id is None {
            Err(ResultError::MissingId)
        } else if self.resolution is None {
            Err(ResultError::MissingResolution)
        } else if self.range is None {
            Err(ResultError::MissingRange)
        } else if self.pixels is None {
            Err(ResultError::MissingPixels)
        } else {
            Ok(
                FragmentResult {
                    id: self.id->Some_0,
                    resolution: self.resolution->Some_0,
                    range: self.range->Some_0,
                    pixels: self.pixels->Some_0,
                },
            )
        }
    }

    /// Sets where the identifier lies in the binary section.
    pub fn with_id(self, offset: u32, count: u32) -> (b: Self)
        ensures
            b == (FragmentResultBuilder { id: Some(U8Data { offset, count }), ..self }),
    {
        FragmentResultBuilder { id: Some(U8Data { offset, count }), ..self }
    }

    /// Sets the resolution.
    pub fn with_resolution(self, nx: u16, ny: u16) -> (b: Self)
        ensures
            b == (FragmentResultBuilder { resolution: Some(Resolution { nx, ny }), ..self }),
    {
        FragmentResultBuilder { resolution: Some(Resolution { nx, ny }), ..self }
    }

    /// Sets the range from the bit patterns of its four coordinates.
    pub fn with_range(self, min_x: u64, min_y: u64, max_x: u64, max_y: u64) -> (b: Self)
        ensures
            b == (FragmentResultBuilder {
                range: Some(
                    Range { min: Point { x: min_x, y: min_y }, max: Point { x: max_x, y: max_y } },
                ),
                ..self
            }),
    {
        FragmentResultBuilder {
            range: Some(
                Range { min: Point { x: min_x, y: min_y }, max: Point { x: max_x, y: max_y } },
            ),
            ..self
        }
    }

    /// Sets where the pixels lie in the binary section.
    pub fn with_pixels(self, offset: u32, count: u32) -> (b: Self)
        ensures
            b == (FragmentResultBuilder { pixels: Some(PixelData { offset, count }), ..self }),
    {
        FragmentResultBuilder { pixels: Some(PixelData { offset, count }), ..self }
    }

    /// Makes the result. Fails where a field was not given and names the
    /// first such field: identifier, resolution, range, pixels.
    pub fn build(self) -> (r: Result<FragmentResult, ResultError>)
        ensures
            r == self.build_spec(),
    {
        let id = match self.id {
            Some(x) => x,
            None => {
                return Err(ResultError::MissingId);
            },
        };
        let resolution = match self.resolution {
            Some(x) => x,
            None => {
                return Err(ResultError::MissingResolution);
            },
        };
        let range = match self.range {
            Some(x) => x,
            None => {
                return Err(ResultError::MissingRange);
            },
        };
        let pixels = match self.pixels {
            Some(x) => x,
            None => {
                return Err(ResultError::MissingPixels);
            },
        };
        Ok(FragmentResult { id, resolution, range, pixels })
    }
}

} // verus!
