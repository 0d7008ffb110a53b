//! The messages of a client, as bytes.
//!
//! A client of the server sends requests and results and reads tasks. What
//! goes over the stream is built and checked here; opening the stream,
//! writing and reading are the caller's part.

use crate::error::ProtocolError;
use crate::fragment_request::{
    decimal, push_decimal, request_json, FragmentRequest, RequestError,
};
use crate::fragment_result::FragmentResult;
use crate::fragment_task::{FragmentTask, FragmentTaskId};
use crate::frame::FrameError;
use crate::json::json_quoted;
use crate::shared_structs::PixelIntensity;
use vstd::prelude::*;
use vstd::string::*;

verus! {

/// The port that a server listens on unless told otherwise.
pub const DEFAULT_PORT: u16 = 8787;

/// Why a request message could not be built.
#[derive(Debug, Clone, Copy, PartialEq, Eq, Structural)]
pub enum RequestMessageError {
    /// The request itself is refused.
    Request(RequestError),
    /// The worker's name could not be written as JSON. A string always can
    /// be, so this is not returned; it stands for the failure that the JSON
    /// writer's signature allows.
    Serialize,
    /// The JSON text could not be framed.
    Frame(FrameError),
}

/// Where a client's server is.
#[derive(Debug, Clone)]
pub struct Client {
    pub server_ip_address: String,
    pub connection_name: String,
    pub port: u16,
}

impl Client {
    /// A client for the server at `server_ip_address`, on `maybe_port` or on
    /// the default port where none is given.
    pub fn new(server_ip_address: String, connection_name: String, maybe_port: Option<u16>) -> (c:
        Client)
        ensures
            c.server_ip_address == server_ip_address,
            c.connection_name == connection_name,
            c.port == match maybe_port {
                Some(port) => port,
                None => DEFAULT_PORT,
            },
    {
        Client {
            server_ip_address,
            connection_name,
            port: match maybe_port {
                Some(port) => port,
                None => DEFAULT_PORT,
            },
        }
    }

    /// The server's address with the port after a colon.
    pub open spec fn endpoint_spec(self) -> Seq<char> {
        self.server_ip_address@ + ":"@ + decimal(self.port as nat)
    }

    /// The server's address with the port after a colon, as a stream is
    /// opened to it.
    pub fn endpoint(&self) -> (s: String)
        ensures
            s@ == self.endpoint_spec(),
    {
        let mut s = String::from_str(self.server_ip_address.as_str());
        s.append(":");
        push_decimal(&mut s, self.port as u32);
        s
    }

    /// Builds the message that asks for work in the name of `worker_name`.
    ///
    /// An empty name and a zero load are refused. Otherwise the message is
    /// the frame of the request's JSON text, with an empty binary section,
    /// or the reason the text could not be framed.
    pub fn send_fragment_request(&self, worker_name: String, max_workload: u32) -> (r: Result<
        Vec<u8>,
        RequestMessageError,
    >)
        ensures
            match FragmentRequest::new_spec(worker_name@, max_workload) {
                Some(e) => r is Err && r->Err_0 == RequestMessageError::Request(e),
                None => match FragmentRequest::frame_spec(
                    request_json(json_quoted(worker_name@), max_workload),
                ) {
                    Ok(bytes) => r is Ok && r->Ok_0@ == bytes,
                    Err(e) => r is Err && r->Err_0 == RequestMessageError::Frame(e),
                },
            },
    {
        let built = FragmentRequest::builder().with_worker_name(worker_name).with_max_work_load(
            max_workload,
        ).build();
        let request = match built {
            Ok(request) => request,
            Err(e) => {
                return Err(RequestMessageError::Request(e));
            },
        };
        let json = match request.to_json() {
            Ok(json) => json,
            Err(_) => {
                return Err(RequestMessageError::Serialize);
            },
        };
        match FragmentRequest::frame(json.as_str()) {
            Ok(bytes) => Ok(bytes),
            Err(e) => Err(RequestMessageError::Frame(e)),
        }
    }

    /// Takes a task message apart: the task, and the identifier bytes that
    /// came with it.
    pub fn read_fragment_task(&self, message: &[u8]) -> (r: Result<
        (FragmentTask, FragmentTaskId),
        ProtocolError,
    >)
        ensures
            match FragmentTask::decode_spec(message@) {
                Ok((task, id)) => r is Ok && r->Ok_0.0 == task && r->Ok_0.1@ == id && task.wf(),
                Err(e) => r is Err && r->Err_0 == e,
            },
    {
        FragmentTask::decode(message)
    }

    /// What [`Client::send_fragment_result`] returns.
    pub open spec fn result_message_spec(
        task: FragmentTask,
        id: Seq<u8>,
        pixels: Seq<PixelIntensity>,
        json: Seq<u8>,
    ) -> Result<Seq<u8>, ProtocolError> {
        match FragmentResult::for_task_spec(task, id.len()) {
            None => Err(ProtocolError::BinaryLength),
            Some(described) => described.encode_spec(json, id, pixels),
        }
    }

    /// Builds the message that hands back the pixels of a task. `json` is
    /// the JSON section; it must describe the result that is handed back: the
    /// task's resolution and range, the identifier at the start of the
    /// binary section, and the pixels after it.
    pub fn send_fragment_result(
        &self,
        fragment_task: FragmentTask,
        fragment_task_id: FragmentTaskId,
        pixels: Vec<PixelIntensity>,
        json: &[u8],
    ) -> (r: Result<Vec<u8>, ProtocolError>)
        ensures
            match Self::result_message_spec(fragment_task, fragment_task_id@, pixels@, json@) {
                Ok(bytes) => r is Ok && r->Ok_0@ == bytes,
                Err(e) => r is Err && r->Err_0 == e,
            },
    {
        let described = match FragmentResult::for_task(&fragment_task, fragment_task_id.len()) {
            Some(d) => d,
            None => {
                return Err(ProtocolError::BinaryLength);
            },
        };
        described.encode(json, fragment_task_id.as_slice(), pixels.as_slice())
    }
}

} // verus!
