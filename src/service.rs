//! What each service answers to one decoded request.
use vstd::prelude::*;
use crate::clock::{timestamp, timestamp_text};
use crate::facts::MemoryFacts;
use crate::messages::{
    unit_label, unit_size, FirstServerRequest, FirstServerResponse, MemoryAmount, MemoryUnit,
    SecondServerRequest, SecondServerResponse,
};

verus! {

/// The memory service's answer to `request`, from the host's facts and the
/// Unix second at which it is made.
pub fn memory_response(request: &FirstServerRequest, facts: MemoryFacts, unix_secs: u64) -> (r:
    FirstServerResponse)
    ensures
        r.hostname@ == facts.hostname@,
        r.username@ == facts.username@,
        r.free_memory == (MemoryAmount { bytes: facts.free_bytes, unit: request.unit }),
        r.unit@ == unit_label(request.unit),
        r.timestamp@ == timestamp_text(unix_secs as nat),
{
    FirstServerResponse {
        hostname: facts.hostname,
        username: facts.username,
        free_memory: MemoryAmount { bytes: facts.free_bytes, unit: request.unit },
        unit: request.unit.label(),
        timestamp: timestamp(unix_secs),
    }
}

/// The process service's answer to `request`: the process's scheduling
/// priority, its thread ids in the order given, and the time of the answer.
pub fn process_response(
    request: &SecondServerRequest,
    priority: i32,
    thread_ids: Vec<u32>,
    unix_secs: u64,
) -> (r: SecondServerResponse)
    ensures
        r.priority == priority,
        r.thread_ids@ == thread_ids@,
        r.timestamp@ == timestamp_text(unix_secs as nat),
{
    SecondServerResponse { priority, thread_ids, timestamp: timestamp(unix_secs) }
}

/// In every unit, the amount reported times the unit's size in bytes gives
/// back the free bytes exactly: whole units times the size, plus the bytes
/// left over, which are fewer than one unit. A megabyte is 1024 * 1024 bytes
/// and a gigabyte 1024 * 1024 * 1024 bytes.
pub proof fn lemma_units_agree(bytes: u64, unit: MemoryUnit)
    ensures
        (bytes as nat / unit_size(unit)) * unit_size(unit) + bytes as nat % unit_size(unit)
            == bytes as nat,
        bytes as nat % unit_size(unit) < unit_size(unit),
        unit_size(MemoryUnit::Bytes) == 1,
        unit_size(MemoryUnit::MegaBytes) == 1024 * 1024,
        unit_size(MemoryUnit::GigaBytes) == 1024 * 1024 * 1024,
{
    vstd::arithmetic::div_mod::lemma_fundamental_div_mod(bytes as int, unit_size(unit) as int);
    vstd::arithmetic::div_mod::lemma_mod_bound(bytes as int, unit_size(unit) as int);
    vstd::arithmetic::mul::lemma_mul_is_commutative(
        (bytes as nat / unit_size(unit)) as int,
        unit_size(unit) as int,
    );
}

/// Responses of the memory service cannot be mixed up between requests: a
/// response names the unit it was asked in (see `memory_response`), and two
/// units never share a label, so the label determines the request's unit.
pub proof fn lemma_label_identifies_unit(asked: MemoryUnit, other: MemoryUnit)
    ensures
        unit_label(asked) == unit_label(other) ==> asked == other,
{
    if unit_label(asked) == unit_label(other) {
        assert(unit_label(asked).len() == unit_label(other).len());
        assert(unit_label(asked)[0] == unit_label(other)[0]);
    }
}

} // verus!
