//! What the server makes of a worker's request.

use crate::error::ProtocolError;
use crate::fragment_request::FragmentRequest;
use vstd::prelude::*;
use vstd::string::*;

verus! {

/// Where a server listens.
#[derive(Debug, Clone)]
pub struct Server {
    pub ip_address: String,
    pub port: String,
}

impl Server {
    /// A server that listens on `ip_address` and `port`.
    pub fn new(ip_address: String, port: String) -> (s: Server)
        ensures
            s.ip_address == ip_address,
            s.port == port,
    {
        Server { ip_address, port }
    }

    /// The address with the port after a colon, as the server binds to it.
    pub fn bind_address(&self) -> (s: String)
        ensures
            s@ == self.ip_address@ + ":"@ + self.port@,
    {
        let mut s = String::from_str(self.ip_address.as_str());
        s.append(":");
        s.append(self.port.as_str());
        s
    }

    /// Takes a worker's request message apart.
    pub fn read_worker_request(&self, message: &[u8]) -> (r: Result<FragmentRequest, ProtocolError>)
        ensures
            match FragmentRequest::decode_spec(message@) {
                Ok((name, load)) => r is Ok && r->Ok_0.wf() && r->Ok_0.name() == name
                    && r->Ok_0.load() == load,
                Err(e) => r is Err && r->Err_0 == e,
            },
    {
        FragmentRequest::decode(message)
    }
}

} // verus!
