//! Reading JSON documents.
//!
//! Parsing is done by `serde_json`. A parsed document is a `serde_json::Value`;
//! this module names what the parser's accessors return, so that the rest of
//! the library can say exactly what it makes of a document, and offers
//! verified helpers that read one member of an object at a time.

use crate::error::ProtocolError;
use vstd::prelude::*;

verus! {

/// `serde_json::Value`, a parsed JSON document. Nothing is known of what is
/// inside but through the names and the readers below.
#[verifier::external_type_specification]
#[verifier::external_body]
pub struct ExValue(serde_json::Value);

/// `serde_json::Error`, what the parser and the writer fail with. It is
/// carried through and never looked into.
#[verifier::external_type_specification]
#[verifier::external_body]
pub struct ExJsonError(serde_json::Error);

/// The document that `serde_json::from_slice` reads from `bytes`, if it
/// accepts them.
pub uninterp spec fn json_document(bytes: Seq<u8>) -> Option<serde_json::Value>;

/// The member of `v` under `key`, as `serde_json::Value::get` finds it: `None`
/// where `v` is not an object or has no such member.
pub uninterp spec fn json_member(v: serde_json::Value, key: Seq<char>) -> Option<
    serde_json::Value,
>;

/// What `serde_json::Value::as_u64` returns for `v`.
pub uninterp spec fn json_unsigned(v: serde_json::Value) -> Option<u64>;

/// The binary64 bit pattern of what `serde_json::Value::as_f64` returns for
/// `v`.
pub uninterp spec fn json_double(v: serde_json::Value) -> Option<u64>;

/// What `serde_json::Value::as_str` returns for `v`.
pub uninterp spec fn json_text(v: serde_json::Value) -> Option<Seq<char>>;

/// The JSON string literal, quotes and escapes included, that
/// `serde_json::to_string` writes for the text `s`.
pub uninterp spec fn json_quoted(s: Seq<char>) -> Seq<char>;

/// Parses a whole JSON document with `serde_json::from_slice`. The result is
/// `Ok` exactly where the parser accepts `bytes`, and is then the document
/// named by [`json_document`].
#[verifier::external_body]
pub(crate) fn parse_document(bytes: &[u8]) -> (r: Result<serde_json::Value, serde_json::Error>)
    ensures
        r is Ok <==> json_document(bytes@) is Some,
        r is Ok ==> json_document(bytes@) == Some(r->Ok_0),
{
    serde_json::from_slice::<serde_json::Value>(bytes)
}

/// Looks a member up with `serde_json::Value::get`.
#[verifier::external_body]
pub(crate) fn member<'a>(v: &'a serde_json::Value, key: &str) -> (r: Option<&'a serde_json::Value>)
    ensures
        match r {
            Some(m) => json_member(*v, key@) == Some(*m),
            None => json_member(*v, key@) is None,
        },
{
    v.get(key)
}

/// Reads a non-negative integer with `serde_json::Value::as_u64`.
#[verifier::external_body]
pub(crate) fn unsigned(v: &serde_json::Value) -> (r: Option<u64>)
    ensures
        r == json_unsigned(*v),
{
    v.as_u64()
}

/// Reads a number with `serde_json::Value::as_f64` and hands back its bits.
#[verifier::external_body]
pub(crate) fn double(v: &serde_json::Value) -> (r: Option<u64>)
    ensures
        r == json_double(*v),
{
    match v.as_f64() {
        Some(x) => Some(x.to_bits()),
        None => None,
    }
}

/// Reads a string with `serde_json::Value::as_str` and copies it.
#[verifier::external_body]
pub(crate) fn text(v: &serde_json::Value) -> (r: Option<String>)
    ensures
        match r {
            Some(s) => json_text(*v) == Some(s@),
            None => json_text(*v) is None,
        },
{
    match v.as_str() {
        Some(s) => Some(s.to_owned()),
        None => None,
    }
}

/// Writes `s` as a JSON string literal with `serde_json::to_string`. The
/// call fails only where a value refuses to be written or a map has keys
/// that are not strings; a string is neither, so the call succeeds, and the
/// result is the text named by [`json_quoted`].
#[verifier::external_body]
pub(crate) fn quote(s: &str) -> (r: Result<String, serde_json::Error>)
    ensures
        r is Ok,
        r->Ok_0@ == json_quoted(s@),
{
    serde_json::to_string(s)
}

/// What [`field`] returns: the member under `key`, or `MissingField`.
pub open spec fn field_spec(v: serde_json::Value, key: Seq<char>) -> Result<
    serde_json::Value,
    ProtocolError,
> {
    match json_member(v, key) {
        Some(m) => Ok(m),
        None => Err(ProtocolError::MissingField),
    }
}

/// What [`field_u64`] returns: the member under `key` as a non-negative
/// integer.
pub open spec fn field_u64_spec(v: serde_json::Value, key: Seq<char>) -> Result<
    u64,
    ProtocolError,
> {
    match json_member(v, key) {
        None => Err(ProtocolError::MissingField),
        Some(m) => match json_unsigned(m) {
            None => Err(ProtocolError::InvalidNumber),
            Some(n) => Ok(n),
        },
    }
}

/// What [`field_u32`] returns: the member under `key` as an integer that
/// fits in 32 bits.
pub open spec fn field_u32_spec(v: serde_json::Value, key: Seq<char>) -> Result<
    u32,
    ProtocolError,
> {
    match field_u64_spec(v, key) {
        Err(e) => Err(e),
        Ok(n) => if n <= u32::MAX {
            Ok(n as u32)
        } else {
            Err(ProtocolError::InvalidNumber)
        },
    }
}

/// What [`field_u16`] returns: the member under `key` as an integer that
/// fits in 16 bits.
pub open spec fn field_u16_spec(v: serde_json::Value, key: Seq<char>) -> Result<
    u16,
    ProtocolError,
> {
    match field_u64_spec(v, key) {
        Err(e) => Err(e),
        Ok(n) => if n <= u16::MAX {
            Ok(n as u16)
        } else {
            Err(ProtocolError::InvalidNumber)
        },
    }
}

/// What [`field_double`] returns: the bits of the number under `key`.
pub open spec fn field_double_spec(v: serde_json::Value, key: Seq<char>) -> Result<
    u64,
    ProtocolError,
> {
    match json_member(v, key) {
        None => Err(ProtocolError::MissingField),
        Some(m) => match json_double(m) {
            None => Err(ProtocolError::InvalidNumber),
            Some(bits) => Ok(bits),
        },
    }
}

/// What [`field_text`] returns: the string under `key`.
pub open spec fn field_text_spec(v: serde_json::Value, key: Seq<char>) -> Result<
    Seq<char>,
    ProtocolError,
> {
    match json_member(v, key) {
        None => Err(ProtocolError::MissingField),
        Some(m) => match json_text(m) {
            None => Err(ProtocolError::InvalidString),
            Some(s) => Ok(s),
        },
    }
}

/// The member of `v` under `key`.
pub fn field<'a>(v: &'a serde_json::Value, key: &str) -> (r: Result<
    &'a serde_json::Value,
    ProtocolError,
>)
    ensures
        match field_spec(*v, key@) {
            Ok(m) => r is Ok && *r->Ok_0 == m,
            Err(e) => r is Err && r->Err_0 == e,
        },
{
    match member(v, key) {
        Some(m) => Ok(m),
        None => Err(ProtocolError::MissingField),
    }
}

/// The member of `v` under `key`, read as a non-negative integer.
pub fn field_u64(v: &serde_json::Value, key: &str) -> (r: Result<u64, ProtocolError>)
    ensures
        r == field_u64_spec(*v, key@),
{
    match member(v, key) {
        None => Err(ProtocolError::MissingField),
        Some(m) => match unsigned(m) {
            None => Err(ProtocolError::InvalidNumber),
            Some(n) => Ok(n),
        },
    }
}

/// The member of `v` under `key`, read as an integer of 32 bits.
pub fn field_u32(v: &serde_json::Value, key: &str) -> (r: Result<u32, ProtocolError>)
    ensures
        r == field_u32_spec(*v, key@),
{
    match field_u64(v, key) {
        Err(e) => Err(e),
        Ok(n) => if n <= 0xffff_ffff {
            Ok(n as u32)
        } else {
            Err(ProtocolError::InvalidNumber)
        },
    }
}

/// The member of `v` under `key`, read as an integer of 16 bits.
pub fn field_u16(v: &serde_json::Value, key: &str) -> (r: Result<u16, ProtocolError>)
    ensures
        r == field_u16_spec(*v, key@),
{
    match field_u64(v, key) {
        Err(e) => Err(e),
        Ok(n) => if n <= 0xffff {
            Ok(n as u16)
        } else {
            Err(ProtocolError::InvalidNumber)
        },
    }
}

/// The member of `v` under `key`, read as a number; the result is the
/// number's binary64 bit pattern.
pub fn field_double(v: &serde_json::Value, key: &str) -> (r: Result<u64, ProtocolError>)
    ensures
        r == field_double_spec(*v, key@),
{
    match member(v, key) {
        None => Err(ProtocolError::MissingField),
        Some(m) => match double(m) {
            None => Err(ProtocolError::InvalidNumber),
            Some(bits) => Ok(bits),
        },
    }
}

/// The member of `v` under `key`, read as a string.
pub fn field_text(v: &serde_json::Value, key: &str) -> (r: Result<String, ProtocolError>)
    ensures
        match field_text_spec(*v, key@) {
            Ok(s) => r is Ok && r->Ok_0@ == s,
            Err(e) => r is Err && r->Err_0 == e,
        },
{
    match member(v, key) {
        None => Err(ProtocolError::MissingField),
        Some(m) => match text(m) {
            None => Err(ProtocolError::InvalidString),
            Some(s) => Ok(s),
        },
    }
}

/// What [`parse`] returns: the document read from `bytes`, or `InvalidJson`.
pub open spec fn parse_spec(bytes: Seq<u8>) -> Result<serde_json::Value, ProtocolError> {
    match json_document(bytes) {
        Some(v) => Ok(v),
        None => Err(ProtocolError::InvalidJson),
    }
}

/// Parses the JSON section of a message.
pub fn parse(bytes: &[u8]) -> (r: Result<serde_json::Value, ProtocolError>)
    ensures
        r == parse_spec(bytes@),
{
    match parse_document(bytes) {
        Ok(v) => Ok(v),
        Err(_) => Err(ProtocolError::InvalidJson),
    }
}

} // verus!
