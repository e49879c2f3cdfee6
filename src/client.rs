//! State of the telemetry client: which services it is connected to, the unit
//! it asks in, the last answer from each service and the last error. The
//! caller does the connecting, sending and drawing, and reports outcomes here.
use vstd::prelude::*;
use crate::messages::{FirstServerRequest, MemoryUnit, SecondServerRequest, ServerNum};

verus! {

pub open spec fn connect_error_prefix(server: ServerNum) -> Seq<char> {
    match server {
        ServerNum::Server1 => "Error during server 1 connection: "@,
        ServerNum::Server2 => "Error during server 2 connection: "@,
    }
}

pub open spec fn request_error_prefix(server: ServerNum) -> Seq<char> {
    match server {
        ServerNum::Server1 => "Error during Server 1 request: "@,
        ServerNum::Server2 => "Error during Server 2 request: "@,
    }
}

pub open spec fn not_connected_text(server: ServerNum) -> Seq<char> {
    match server {
        ServerNum::Server1 => "Not connected to the first server"@,
        ServerNum::Server2 => "Not connected to the second server"@,
    }
}

pub struct ClientState {
    pub server_1_connected: bool,
    pub server_2_connected: bool,
    pub last_error: Option<String>,
    pub selected_unit: MemoryUnit,
    pub server_1_last_response: Option<String>,
    pub server_2_last_response: Option<String>,
}

impl ClientState {
    pub open spec fn is_connected(&self, server: ServerNum) -> bool {
        match server {
            ServerNum::Server1 => self.server_1_connected,
            ServerNum::Server2 => self.server_2_connected,
        }
    }

    pub open spec fn last_response_of(&self, server: ServerNum) -> Option<String> {
        match server {
            ServerNum::Server1 => self.server_1_last_response,
            ServerNum::Server2 => self.server_2_last_response,
        }
    }

    /// Everything about `server` is as in `other`, except its connection and last response.
    pub open spec fn same_except(&self, other: &ClientState, server: ServerNum) -> bool {
        &&& self.selected_unit == other.selected_unit
        &&& server == ServerNum::Server1 ==> self.server_2_connected == other.server_2_connected
            && self.server_2_last_response == other.server_2_last_response
        &&& server == ServerNum::Server2 ==> self.server_1_connected == other.server_1_connected
            && self.server_1_last_response == other.server_1_last_response
    }

    /// The state at start: connected to nothing, asking in bytes, nothing shown.
    pub fn new() -> (r: ClientState)
        ensures
            !r.server_1_connected,
            !r.server_2_connected,
            r.last_error is None,
            r.selected_unit == MemoryUnit::Bytes,
            r.server_1_last_response is None,
            r.server_2_last_response is None,
    {
        ClientState {
            server_1_connected: false,
            server_2_connected: false,
            last_error: None,
            selected_unit: MemoryUnit::Bytes,
            server_1_last_response: None,
            server_2_last_response: None,
        }
    }

    pub fn is_connected_to(&self, server: ServerNum) -> (r: bool)
        ensures
            r == self.is_connected(server),
    {
        match server {
            ServerNum::Server1 => self.server_1_connected,
            ServerNum::Server2 => self.server_2_connected,
        }
    }

    /// A connection to `server` was made: it is marked connected and the last error cleared.
    pub fn connected(&mut self, server: ServerNum)
        ensures
            final(self).is_connected(server),
            final(self).last_error is None,
            final(self).last_response_of(server) == old(self).last_response_of(server),
            final(self).same_except(old(self), server),
    {
        match server {
            ServerNum::Server1 => self.server_1_connected = true,
            ServerNum::Server2 => self.server_2_connected = true,
        }
        self.last_error = None;
    }

    /// A connection to `server` failed for `reason`: the error is recorded and
    /// nothing else changes.
    pub fn connect_failed(&mut self, server: ServerNum, reason: &str)
        ensures
            final(self).last_error is Some,
            final(self).last_error->0@ == connect_error_prefix(server) + reason@,
            final(self).is_connected(server) == old(self).is_connected(server),
            final(self).last_response_of(server) == old(self).last_response_of(server),
            final(self).same_except(old(self), server),
    {
        let mut text = match server {
            ServerNum::Server1 => String::from_str("Error during server 1 connection: "),
            ServerNum::Server2 => String::from_str("Error during server 2 connection: "),
        };
        text.append(reason);
        self.last_error = Some(text);
    }

    /// Disconnects from `server`: its connection and last response are dropped
    /// and the last error cleared.
    pub fn disconnect(&mut self, server: ServerNum)
        ensures
            !final(self).is_connected(server),
            final(self).last_error is None,
            final(self).last_response_of(server) is None,
            final(self).same_except(old(self), server),
    {
        match server {
            ServerNum::Server1 => {
                self.server_1_connected = false;
                self.server_1_last_response = None;
            },
            ServerNum::Server2 => {
                self.server_2_connected = false;
                self.server_2_last_response = None;
            },
        }
        self.last_error = None;
    }

    /// Chooses the unit of the next request to the memory service.
    pub fn select_unit(&mut self, unit: MemoryUnit)
        ensures
            final(self).selected_unit == unit,
            final(self).server_1_connected == old(self).server_1_connected,
            final(self).server_2_connected == old(self).server_2_connected,
            final(self).last_error == old(self).last_error,
            final(self).server_1_last_response == old(self).server_1_last_response,
            final(self).server_2_last_response == old(self).server_2_last_response,
    {
        self.selected_unit = unit;
    }

    /// The request to send to the memory service, in the selected unit; an
    /// error where the client is not connected to it.
    pub fn first_server_request(&self) -> (r: Result<FirstServerRequest, String>)
        ensures
            self.server_1_connected ==> r == Ok::<FirstServerRequest, String>(
                FirstServerRequest { unit: self.selected_unit },
            ),
            !self.server_1_connected ==> r is Err && r->Err_0@ == not_connected_text(
                ServerNum::Server1,
            ),
    {
        if self.server_1_connected {
            Ok(FirstServerRequest { unit: self.selected_unit })
        } else {
            Err(String::from_str("Not connected to the first server"))
        }
    }

    /// The request to send to the process service; an error where the client
    /// is not connected to it.
    pub fn second_server_request(&self) -> (r: Result<SecondServerRequest, String>)
        ensures
            self.server_2_connected ==> r is Ok && r->Ok_0.request == Some(()),
            !self.server_2_connected ==> r is Err && r->Err_0@ == not_connected_text(
                ServerNum::Server2,
            ),
    {
        if self.server_2_connected {
            Ok(SecondServerRequest { request: Some(()) })
        } else {
            Err(String::from_str("Not connected to the second server"))
        }
    }

    /// The outcome of a request to `server`: its text is shown as the last
    /// response and the error cleared, or the error is recorded.
    pub fn request_finished(&mut self, server: ServerNum, outcome: Result<String, String>)
        ensures
            outcome is Ok ==> final(self).last_error is None && final(self).last_response_of(server)
                is Some && final(self).last_response_of(server)->0@ == outcome->Ok_0@,
            outcome is Err ==> final(self).last_error is Some && final(self).last_error->0@
                == request_error_prefix(server) + outcome->Err_0@ && final(self).last_response_of(
                server,
            ) == old(self).last_response_of(server),
            final(self).is_connected(server) == old(self).is_connected(server),
            final(self).same_except(old(self), server),
    {
        match outcome {
            Ok(text) => {
                match server {
                    ServerNum::Server1 => self.server_1_last_response = Some(text),
                    ServerNum::Server2 => self.server_2_last_response = Some(text),
                }
                self.last_error = None;
            },
            Err(reason) => {
                let mut text = match server {
                    ServerNum::Server1 => String::from_str("Error during Server 1 request: "),
                    ServerNum::Server2 => String::from_str("Error during Server 2 request: "),
                };
                text.append(reason.as_str());
                self.last_error = Some(text);
            },
        }
    }
}

} // verus!
