//! The values exchanged between the telemetry client and the two services.
use vstd::prelude::*;

verus! {

/// Unit in which the memory service reports free memory.
#[derive(Debug, Clone, Copy, PartialEq, Eq, Structural)]
pub enum MemoryUnit {
    Bytes,
    MegaBytes,
    GigaBytes,
}

/// Number of bytes in one of `unit`.
pub open spec fn unit_size(unit: MemoryUnit) -> nat {
    match unit {
        MemoryUnit::Bytes => 1,
        MemoryUnit::MegaBytes => 1024 * 1024,
        MemoryUnit::GigaBytes => 1024 * 1024 * 1024,
    }
}

/// Label that a response carries for `unit`.
pub open spec fn unit_label(unit: MemoryUnit) -> Seq<char> {
    match unit {
        MemoryUnit::Bytes => seq!['b', 'y', 't', 'e', 's'],
        MemoryUnit::MegaBytes => seq!['M', 'B'],
        MemoryUnit::GigaBytes => seq!['G', 'B'],
    }
}

impl MemoryUnit {
    /// Number of bytes in one of this unit.
    pub fn size_in_bytes(&self) -> (r: u64)
        ensures
            r as nat == unit_size(*self),
    {
        match self {
            MemoryUnit::Bytes => 1,
            MemoryUnit::MegaBytes => 1024 * 1024,
            MemoryUnit::GigaBytes => 1024 * 1024 * 1024,
        }
    }

    /// The label written beside an amount of this unit ("bytes", "MB", "GB").
    pub fn label(&self) -> (r: String)
        ensures
            r@ == unit_label(*self),
    {
        match self {
            MemoryUnit::Bytes => {
                proof {
                    reveal_strlit("bytes");
                }
                String::from_str("bytes")
            },
            MemoryUnit::MegaBytes => {
                proof {
                    reveal_strlit("MB");
                }
                String::from_str("MB")
            },
            MemoryUnit::GigaBytes => {
                proof {
                    reveal_strlit("GB");
                }
                String::from_str("GB")
            },
        }
    }
}

/// An amount of free memory, held exactly: a count of bytes and the unit in
/// which it is to be shown. Its value in that unit is `bytes / unit_size(unit)`
/// as a rational number, that is `whole()` plus `remainder()` over `size_in_bytes()`.
#[derive(Debug, Clone, Copy, PartialEq, Eq, Structural)]
pub struct MemoryAmount {
    pub bytes: u64,
    pub unit: MemoryUnit,
}

impl MemoryAmount {
    /// Whole units in the amount.
    pub fn whole(&self) -> (r: u64)
        ensures
            r as nat == self.bytes as nat / unit_size(self.unit),
    {
        self.bytes / self.unit.size_in_bytes()
    }

    /// Bytes left over after the whole units.
    pub fn remainder(&self) -> (r: u64)
        ensures
            r as nat == self.bytes as nat % unit_size(self.unit),
    {
        self.bytes % self.unit.size_in_bytes()
    }
}

/// Request to the memory service.
#[derive(Debug, Clone, Copy, PartialEq, Eq, Structural)]
pub struct FirstServerRequest {
    pub unit: MemoryUnit,
}

/// Response of the memory service.
#[derive(Debug)]
pub struct FirstServerResponse {
    pub hostname: String,
    pub username: String,
    pub free_memory: MemoryAmount,
    pub unit: String,
    pub timestamp: String,
}

/// Request to the process service: a trigger without payload.
#[derive(Debug, Clone, Copy)]
pub struct SecondServerRequest {
    pub request: Option<()>,
}

/// Response of the process service.
#[derive(Debug)]
pub struct SecondServerResponse {
    pub priority: i32,
    pub thread_ids: Vec<u32>,
    pub timestamp: String,
}

/// Which of the two services.
#[derive(Debug, Clone, Copy, PartialEq, Eq, Structural)]
pub enum ServerNum {
    Server1,
    Server2,
}

pub open spec fn service_port(s: ServerNum) -> u16 {
    match s {
        ServerNum::Server1 => 8080,
        ServerNum::Server2 => 8081,
    }
}

pub open spec fn service_buffer_capacity(s: ServerNum) -> usize {
    match s {
        ServerNum::Server1 => 1024,
        ServerNum::Server2 => 2048,
    }
}

impl ServerNum {
    /// The TCP port on which the service listens.
    pub fn port(&self) -> (r: u16)
        ensures
            r == service_port(*self),
    {
        match self {
            ServerNum::Server1 => 8080,
            ServerNum::Server2 => 8081,
        }
    }

    /// Size of the buffer into which one request is read.
    pub fn buffer_capacity(&self) -> (r: usize)
        ensures
            r == service_buffer_capacity(*self),
    {
        match self {
            ServerNum::Server1 => 1024,
            ServerNum::Server2 => 2048,
        }
    }
}

} // verus!
