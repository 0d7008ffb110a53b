//! The message by which a worker asks for work.

use crate::error::ProtocolError;
use crate::frame::{decode_frame, encode_frame, encode_spec, from_be32, FrameError};
use crate::json::{
    field, field_spec, field_text, field_text_spec, field_u32, field_u32_spec, json_quoted, quote,
};
use vstd::prelude::*;
use vstd::string::*;
use vstd::utf8::encode_utf8;

verus! {

/// Why a request could not be built.
#[derive(Debug, Clone, Copy, PartialEq, Eq, Structural)]
pub enum RequestError {
    /// No worker name was given.
    MissingWorkerName,
    /// No maximal work load was given.
    MissingMaxWorkLoad,
    /// The worker name is the empty string.
    EmptyWorkerName,
    /// The maximal work load is zero.
    ZeroWorkLoad,
}

impl RequestError {
    /// The text of the error's message.
    pub open spec fn message_spec(self) -> Seq<char> {
        match self {
            RequestError::MissingWorkerName => "Worker name is missing"@,
            RequestError::MissingMaxWorkLoad => "Max work load is missing"@,
            RequestError::EmptyWorkerName => "Worker name is empty"@,
            RequestError::ZeroWorkLoad => "Max work load is zero"@,
        }
    }

    /// A sentence that says what is wrong.
    pub fn message(&self) -> (s: String)
        ensures
            s@ == self.message_spec(),
    {
        match self {
            RequestError::MissingWorkerName => String::from_str("Worker name is missing"),
            RequestError::MissingMaxWorkLoad => String::from_str("Max work load is missing"),
            RequestError::EmptyWorkerName => String::from_str("Worker name is empty"),
            RequestError::ZeroWorkLoad => String::from_str("Max work load is zero"),
        }
    }
}

/// The ten decimal digits, in order.
pub open spec fn digits() -> Seq<char> {
    seq!['0', '1', '2', '3', '4', '5', '6', '7', '8', '9']
}

/// The decimal numeral of `n`, without sign or leading zeros.
pub open spec fn decimal(n: nat) -> Seq<char>
    decreases n,
{
    if n < 10 {
        seq![digits()[n as int]]
    } else {
        decimal(n / 10).push(digits()[(n % 10) as int])
    }
}

/// The one-character text of a decimal digit.
fn digit_text(d: u32) -> (s: &'static str)
    requires
        d < 10,
    ensures
        s@ == seq![digits()[d as int]],
{
    proof {
        reveal_strlit("0");
        reveal_strlit("1");
        reveal_strlit("2");
        reveal_strlit("3");
        reveal_strlit("4");
        reveal_strlit("5");
        reveal_strlit("6");
        reveal_strlit("7");
        reveal_strlit("8");
        reveal_strlit("9");
    }
    let s = match d {
        0 => "0",
        1 => "1",
        2 => "2",
        3 => "3",
        4 => "4",
        5 => "5",
        6 => "6",
        7 => "7",
        8 => "8",
        _ => "9",
    };
    assert(s@ =~= seq![digits()[d as int]]);
    s
}

/// Appends the decimal numeral of `n` to `out`.
pub fn push_decimal(out: &mut String, n: u32)
    ensures
        final(out)@ == old(out)@ + decimal(n as nat),
    decreases n,
{
    if n >= 10 {
        push_decimal(out, n / 10);
    }
    out.append(digit_text(n % 10));
    assert(out@ =~= old(out)@ + decimal(n as nat));
}

/// What a worker sends to ask for a task: its name, and the largest work
/// load it is ready to take. The name is never empty and the load never zero.
#[derive(Debug, Clone)]
pub struct FragmentRequest {
    worker_name: String,
    maximal_work_load: u32,
}

/// The JSON text of a request, given the worker's name already written as a
/// JSON string literal.
pub open spec fn request_json(quoted_name: Seq<char>, load: u32) -> Seq<char> {
    "{\"FragmentRequest\":{\"worker_name\":"@ + quoted_name + ",\"maximal_work_load\":"@ + decimal(
        load as nat,
    ) + "}}"@
}

impl FragmentRequest {
    /// The worker's name.
    pub closed spec fn name(self) -> Seq<char> {
        self.worker_name@
    }

    /// The largest work load the worker takes.
    pub closed spec fn load(self) -> u32 {
        self.maximal_work_load
    }

    /// The name is not empty and the load is not zero.
    pub open spec fn wf(self) -> bool {
        self.name().len() > 0 && self.load() > 0
    }

    /// What [`FragmentRequest::new`] returns for the two fields.
    pub open spec fn new_spec(name: Seq<char>, load: u32) -> Option<RequestError> {
        if name.len() == 0 {
            Some(RequestError::EmptyWorkerName)
        } else if load == 0 {
            Some(RequestError::ZeroWorkLoad)
        } else {
            None
        }
    }

    /// Makes a request from its two fields. An empty name and a zero load
    /// are refused.
    pub fn new(worker_name: String, maximal_work_load: u32) -> (r: Result<Self, RequestError>)
        ensures
            match Self::new_spec(worker_name@, maximal_work_load) {
                Some(e) => r is Err && r->Err_0 == e,
                None => r is Ok && r->Ok_0.wf() && r->Ok_0.name() == worker_name@
                    && r->Ok_0.load() == maximal_work_load,
            },
    {
        if worker_name.as_str().is_empty() {
            return Err(RequestError::EmptyWorkerName);
        }
        if maximal_work_load == 0 {
            return Err(RequestError::ZeroWorkLoad);
        }
        Ok(FragmentRequest { worker_name, maximal_work_load })
    }

    /// A builder with no field set.
    pub fn builder() -> (b: FragmentRequestBuilder)
        ensures
            b.name() is None,
            b.load() is None,
    {
        FragmentRequestBuilder { worker_name: None, max_work_load: None }
    }

    /// The worker's name.
    pub fn worker_name(&self) -> (s: &String)
        ensures
            s@ == self.name(),
    {
        &self.worker_name
    }

    /// The largest work load the worker takes.
    pub fn maximal_work_load(&self) -> (n: u32)
        ensures
            n == self.load(),
    {
        self.maximal_work_load
    }

    /// Writes the request's JSON text around the name's JSON string literal.
    pub fn json_with_name(&self, quoted_name: &str) -> (s: String)
        ensures
            s@ == request_json(quoted_name@, self.load()),
    {
        let mut s = String::from_str("{\"FragmentRequest\":{\"worker_name\":");
        s.append(quoted_name);
        s.append(",\"maximal_work_load\":");
        push_decimal(&mut s, self.maximal_work_load);
        s.append("}}");
        s
    }

    /// The request as JSON text: the request's JSON around the name as
    /// `serde_json` escapes it.
    pub fn to_json(&self) -> (r: Result<String, serde_json::Error>)
        ensures
            r is Ok,
            r->Ok_0@ == request_json(json_quoted(self.name()), self.load()),
    {
        match quote(self.worker_name.as_str()) {
            Ok(quoted) => Ok(self.json_with_name(quoted.as_str())),
            Err(e) => Err(e),
        }
    }

    /// What [`FragmentRequest::frame`] makes of the request's JSON text.
    pub open spec fn frame_spec(json: Seq<char>) -> Result<Seq<u8>, FrameError> {
        encode_spec(encode_utf8(json), Seq::<u8>::empty())
    }

    /// Frames the JSON text of a request. The binary section is empty, so
    /// the two length fields are equal.
    pub fn frame(json: &str) -> (r: Result<Vec<u8>, FrameError>)
        ensures
            match Self::frame_spec(json@) {
                Ok(bytes) => r is Ok && r->Ok_0@ == bytes,
                Err(e) => r is Err && r->Err_0 == e,
            },
    {
        let empty: Vec<u8> = Vec::new();
        encode_frame(json.as_bytes(), empty.as_slice())
    }

    /// In the frame of a request the two length fields are equal: both are
    /// the length of the JSON text, and nothing follows it.
    pub proof fn lemma_frame_sizes(json: Seq<char>)
        requires
            Self::frame_spec(json) is Ok,
        ensures
            ({
                let bytes = Self::frame_spec(json)->Ok_0;
                &&& from_be32(bytes.subrange(0, 4)) == encode_utf8(json).len()
                &&& from_be32(bytes.subrange(4, 8)) == encode_utf8(json).len()
                &&& bytes.len() == 8 + encode_utf8(json).len()
                &&& crate::frame::decode_spec(bytes) == Ok::<(Seq<u8>, Seq<u8>), FrameError>(
                    (encode_utf8(json), Seq::<u8>::empty()),
                )
            }),
    {
        crate::frame::lemma_frame_sizes(encode_utf8(json), Seq::<u8>::empty());
        crate::frame::lemma_decode_encode(encode_utf8(json), Seq::<u8>::empty());
    }

    /// What [`FragmentRequest::decode`] makes of a whole message.
    pub open spec fn decode_spec(bytes: Seq<u8>) -> Result<(Seq<char>, u32), ProtocolError> {
        match crate::frame::decode_spec(bytes) {
            Err(e) => Err(ProtocolError::Frame(e)),
            Ok((json, binary)) => if binary.len() != 0 {
                Err(ProtocolError::BinaryLength)
            } else {
                match crate::json::parse_spec(json) {
                    Err(e) => Err(e),
                    Ok(v) => Self::from_value_spec(v),
                }
            },
        }
    }

    /// Takes a whole request message apart: the envelope, whose binary
    /// section must be empty, and the JSON section.
    pub fn decode(bytes: &[u8]) -> (r: Result<FragmentRequest, ProtocolError>)
        ensures
            match Self::decode_spec(bytes@) {
                Ok((name, load)) => r is Ok && r->Ok_0.wf() && r->Ok_0.name() == name
                    && r->Ok_0.load() == load,
                Err(e) => r is Err && r->Err_0 == e,
            },
    {
        let frame = match decode_frame(bytes) {
            Ok(f) => f,
            Err(e) => {
                return Err(ProtocolError::Frame(e));
            },
        };
        if frame.binary.len() != 0 {
            return Err(ProtocolError::BinaryLength);
        }
        let v = crate::json::parse(frame.json.as_slice())?;
        FragmentRequest::from_value(&v)
    }

    /// What [`FragmentRequest::from_value`] makes of a document.
    pub open spec fn from_value_spec(v: serde_json::Value) -> Result<
        (Seq<char>, u32),
        ProtocolError,
    > {
        match field_spec(v, "FragmentRequest"@) {
            Err(e) => Err(e),
            Ok(body) => match field_text_spec(body, "worker_name"@) {
                Err(e) => Err(e),
                Ok(name) => match field_u32_spec(body, "maximal_work_load"@) {
                    Err(e) => Err(e),
                    Ok(load) => if Self::new_spec(name, load) is Some {
                        Err(ProtocolError::InvalidValue)
                    } else {
                        Ok((name, load))
                    },
                },
            },
        }
    }

    /// Reads a request from a parsed document of the form
    /// `{"FragmentRequest":{"worker_name":..,"maximal_work_load":..}}`.
    pub fn from_value(v: &serde_json::Value) -> (r: Result<FragmentRequest, ProtocolError>)
        ensures
            match Self::from_value_spec(*v) {
                Ok((name, load)) => r is Ok && r->Ok_0.wf() && r->Ok_0.name() == name
                    && r->Ok_0.load() == load,
                Err(e) => r is Err && r->Err_0 == e,
            },
    {
        let body = match field(v, "FragmentRequest") {
            Ok(b) => b,
            Err(e) => {
                return Err(e);
            },
        };
        let name = match field_text(body, "worker_name") {
            Ok(s) => s,
            Err(e) => {
                return Err(e);
            },
        };
        let load = match field_u32(body, "maximal_work_load") {
            Ok(n) => n,
            Err(e) => {
                return Err(e);
            },
        };
        match FragmentRequest::new(name, load) {
            Ok(request) => Ok(request),
            Err(_) => Err(ProtocolError::InvalidValue),
        }
    }
}

/// Collects the fields of a request one at a time.
#[derive(Debug, Clone)]
pub struct FragmentRequestBuilder {
    worker_name: Option<String>,
    max_work_load: Option<u32>,
}

impl FragmentRequestBuilder {
    /// The name given so far.
    pub closed spec fn name(self) -> Option<Seq<char>> {
        match self.worker_name {
            Some(s) => Some(s@),
            None => None,
        }
    }

    /// The load given so far.
    pub closed spec fn load(self) -> Option<u32> {
        self.max_work_load
    }

    /// What [`FragmentRequestBuilder::build`] returns for the fields given.
    pub open spec fn build_spec(name: Option<Seq<char>>, load: Option<u32>) -> Option<
        RequestError,
    > {
        match (name, load) {
            (None, _) => Some(RequestError::MissingWorkerName),
            (Some(_), None) => Some(RequestError::MissingMaxWorkLoad),
            (Some(n), Some(l)) => FragmentRequest::new_spec(n, l),
        }
    }

    /// Sets the worker's name.
    pub fn with_worker_name(self, worker_name: String) -> (b: Self)
        ensures
            b.name() == Some(worker_name@),
            b.load() == self.load(),
    {
        FragmentRequestBuilder { worker_name: Some(worker_name), max_work_load: self.max_work_load }
    }

    /// Sets the maximal work load.
    pub fn with_max_work_load(self, max_work_load: u32) -> (b: Self)
        ensures
            b.name() == self.name(),
            b.load() == Some(max_work_load),
    {
        FragmentRequestBuilder { worker_name: self.worker_name, max_work_load: Some(max_work_load) }
    }

    /// Makes the request. Fails where a field was not given, the name first,
    /// and where a field breaks the request's invariant.
    pub fn build(self) -> (r: Result<FragmentRequest, RequestError>)
        ensures
            match Self::build_spec(self.name(), self.load()) {
                Some(e) => r is Err && r->Err_0 == e,
                None => r is Ok && r->Ok_0.wf() && Some(r->Ok_0.name()) == self.name() && Some(
                    r->Ok_0.load(),
                ) == self.load(),
            },
    {
        let worker_name = match self.worker_name {
            Some(s) => s,
            None => {
                return Err(RequestError::MissingWorkerName);
            },
        };
        let max_work_load = match self.max_work_load {
            Some(n) => n,
            None => {
                return Err(RequestError::MissingMaxWorkLoad);
            },
        };
        FragmentRequest::new(worker_name, max_work_load)
    }
}

} // verus!
