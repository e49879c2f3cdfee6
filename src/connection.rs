//! Decisions of the handler that owns one accepted connection.
//!
//! The handler loops `AwaitingRequest -> Decoding -> Querying -> Encoding ->
//! Writing -> AwaitingRequest`, and ends in `Closed` on peer close, a read or
//! write failure, a malformed request, missing facts or a failed encoding.
//! Any event that does not fit the phase closes it too. The caller performs
//! each action and reports its outcome as the next event.
use vstd::prelude::*;

verus! {

#[derive(Debug, Clone, Copy, PartialEq, Eq, Structural)]
pub enum Phase {
    AwaitingRequest,
    Decoding,
    Querying,
    Encoding,
    Writing,
    Closed,
}

/// Outcome of the action last performed on the connection.
#[derive(Debug, Clone, Copy, PartialEq, Eq, Structural)]
pub enum Event {
    /// A read returned this many bytes (zero: the peer closed the connection).
    Received(usize),
    ReadFailed,
    /// The received bytes held one well-formed request.
    Decoded,
    Malformed,
    /// The facts for the response were gathered.
    Queried,
    QueryFailed,
    Encoded,
    EncodeFailed,
    Written,
    WriteFailed,
}

/// What the caller does next.
#[derive(Debug, Clone, Copy, PartialEq, Eq, Structural)]
pub enum Action {
    /// Read once into a buffer of this many bytes.
    Read(usize),
    /// Decode the first `len` bytes of the buffer as one request.
    Decode(usize),
    Query,
    Encode,
    /// Write the whole encoded response.
    Write,
    /// Release the connection; nothing more is done on it.
    Close,
}

/// The transition taken on `event` in `phase`, for a buffer of `capacity` bytes.
pub open spec fn next(capacity: usize, phase: Phase, event: Event) -> (Phase, Action) {
    match (phase, event) {
        (Phase::AwaitingRequest, Event::Received(n)) => if 0 < n && n <= capacity {
            (Phase::Decoding, Action::Decode(n))
        } else {
            (Phase::Closed, Action::Close)
        },
        (Phase::Decoding, Event::Decoded) => (Phase::Querying, Action::Query),
        (Phase::Querying, Event::Queried) => (Phase::Encoding, Action::Encode),
        (Phase::Encoding, Event::Encoded) => (Phase::Writing, Action::Write),
        (Phase::Writing, Event::Written) => (Phase::AwaitingRequest, Action::Read(capacity)),
        _ => (Phase::Closed, Action::Close),
    }
}

/// Phase reached and actions emitted when `events` arrive one by one from `phase`.
pub open spec fn run(capacity: usize, phase: Phase, events: Seq<Event>) -> (Phase, Seq<Action>)
    decreases events.len(),
{
    if events.len() == 0 {
        (phase, Seq::empty())
    } else {
        let (p, a) = next(capacity, phase, events[0]);
        let (q, rest) = run(capacity, p, events.drop_first());
        (q, seq![a] + rest)
    }
}

pub open spec fn count_writes(actions: Seq<Action>) -> nat
    decreases actions.len(),
{
    if actions.len() == 0 {
        0
    } else {
        (if actions[0] == Action::Write { 1nat } else { 0nat }) + count_writes(actions.drop_first())
    }
}

pub open spec fn count_decoded(events: Seq<Event>) -> nat
    decreases events.len(),
{
    if events.len() == 0 {
        0
    } else {
        (if events[0] == Event::Decoded { 1nat } else { 0nat }) + count_decoded(events.drop_first())
    }
}

/// The handler of one connection.
pub struct Handler {
    pub capacity: usize,
    pub phase: Phase,
}

impl Handler {
    /// A handler for a fresh connection, reading into a buffer of `capacity` bytes.
    /// Its first action is `first_action()`.
    pub fn new(capacity: usize) -> (r: Handler)
        ensures
            r.capacity == capacity,
            r.phase == Phase::AwaitingRequest,
    {
        Handler { capacity, phase: Phase::AwaitingRequest }
    }

    /// The action with which a fresh connection starts: one read.
    pub fn first_action(&self) -> (r: Action)
        ensures
            r == Action::Read(self.capacity),
    {
        Action::Read(self.capacity)
    }

    pub fn is_closed(&self) -> (r: bool)
        ensures
            r == (self.phase == Phase::Closed),
    {
        match self.phase {
            Phase::Closed => true,
            _ => false,
        }
    }

    /// Takes the transition for `event` and returns the action to perform.
    pub fn step(&mut self, event: Event) -> (r: Action)
        ensures
            final(self).capacity == old(self).capacity,
            (final(self).phase, r) == next(old(self).capacity, old(self).phase, event),
    {
        let cap = self.capacity;
        let (p, a) = match (self.phase, event) {
            (Phase::AwaitingRequest, Event::Received(n)) => {
                if 0 < n && n <= cap {
                    (Phase::Decoding, Action::Decode(n))
                } else {
                    (Phase::Closed, Action::Close)
                }
            },
            (Phase::Decoding, Event::Decoded) => (Phase::Querying, Action::Query),
            (Phase::Querying, Event::Queried) => (Phase::Encoding, Action::Encode),
            (Phase::Encoding, Event::Encoded) => (Phase::Writing, Action::Write),
            (Phase::Writing, Event::Written) => (Phase::AwaitingRequest, Action::Read(cap)),
            _ => (Phase::Closed, Action::Close),
        };
        self.phase = p;
        a
    }
}

/// A closed connection stays closed, and nothing is ever written on it again.
pub proof fn lemma_closed_is_final(capacity: usize, events: Seq<Event>)
    ensures
        run(capacity, Phase::Closed, events).0 == Phase::Closed,
        count_writes(run(capacity, Phase::Closed, events).1) == 0,
    decreases events.len(),
{
    if events.len() > 0 {
        lemma_closed_is_final(capacity, events.drop_first());
        let rest = run(capacity, Phase::Closed, events.drop_first()).1;
        assert((seq![Action::Close] + rest).drop_first() =~= rest);
    }
}

/// 1 where a decoded request still awaits its write action.
pub open spec fn pending(phase: Phase) -> nat {
    match phase {
        Phase::Querying | Phase::Encoding => 1,
        _ => 0,
    }
}

/// Events that carry one well-formed request of `len` bytes through to its response.
pub open spec fn exchange_events(len: usize) -> Seq<Event> {
    seq![Event::Received(len), Event::Decoded, Event::Queried, Event::Encoded, Event::Written]
}

/// Actions emitted for one such exchange.
pub open spec fn exchange_actions(capacity: usize, len: usize) -> Seq<Action> {
    seq![Action::Decode(len), Action::Query, Action::Encode, Action::Write, Action::Read(capacity)]
}

/// Every write on a connection answers a distinct decoded request: the writes
/// emitted never outnumber the requests decoded (plus one already decoded).
pub proof fn lemma_writes_answer_requests(capacity: usize, phase: Phase, events: Seq<Event>)
    ensures
        count_writes(run(capacity, phase, events).1) <= count_decoded(events) + pending(phase),
    decreases events.len(),
{
    if events.len() > 0 {
        let (p, a) = next(capacity, phase, events[0]);
        lemma_writes_answer_requests(capacity, p, events.drop_first());
        let rest = run(capacity, p, events.drop_first()).1;
        assert((seq![a] + rest).drop_first() =~= rest);
    }
}

/// One well-formed request from a waiting connection is decoded, answered by
/// exactly one write, and the connection waits for the next request.
pub proof fn lemma_one_exchange(capacity: usize, len: usize, rest: Seq<Event>)
    requires
        0 < len <= capacity,
    ensures
        run(capacity, Phase::AwaitingRequest, exchange_events(len) + rest) == (
            run(capacity, Phase::AwaitingRequest, rest).0,
            exchange_actions(capacity, len) + run(capacity, Phase::AwaitingRequest, rest).1,
        ),
{
    let e = exchange_events(len) + rest;
    let r = run(capacity, Phase::AwaitingRequest, rest);
    assert(e.drop_first().drop_first().drop_first().drop_first().drop_first() =~= rest);
    let s4 = e.drop_first().drop_first().drop_first().drop_first();
    let s3 = e.drop_first().drop_first().drop_first();
    let s2 = e.drop_first().drop_first();
    let s1 = e.drop_first();
    assert(run(capacity, Phase::Writing, s4) == (r.0, seq![Action::Read(capacity)] + r.1));
    assert(run(capacity, Phase::Encoding, s3) == (r.0, seq![Action::Write] + (seq![Action::Read(capacity)] + r.1)));
    assert(run(capacity, Phase::Querying, s2).1 =~= seq![Action::Encode, Action::Write, Action::Read(capacity)] + r.1);
    assert(run(capacity, Phase::Decoding, s1).1 =~= seq![Action::Query, Action::Encode, Action::Write, Action::Read(capacity)] + r.1);
    assert(run(capacity, Phase::AwaitingRequest, e).1 =~= exchange_actions(capacity, len) + r.1);
}

/// Two well-formed requests in turn on one connection get exactly two
/// responses, in order, and the connection stays open for the next request.
pub proof fn lemma_two_requests_two_responses(capacity: usize, len1: usize, len2: usize)
    requires
        0 < len1 <= capacity,
        0 < len2 <= capacity,
    ensures
        run(capacity, Phase::AwaitingRequest, exchange_events(len1) + exchange_events(len2)) == (
            Phase::AwaitingRequest,
            exchange_actions(capacity, len1) + exchange_actions(capacity, len2),
        ),
        count_writes(exchange_actions(capacity, len1) + exchange_actions(capacity, len2)) == 2,
{
    let empty = Seq::<Event>::empty();
    lemma_one_exchange(capacity, len2, empty);
    assert(exchange_events(len2) + empty =~= exchange_events(len2));
    assert(exchange_actions(capacity, len2) + Seq::<Action>::empty() =~= exchange_actions(capacity, len2));
    lemma_one_exchange(capacity, len1, exchange_events(len2));
    let acts = exchange_actions(capacity, len1) + exchange_actions(capacity, len2);
    assert(acts.drop_first().drop_first().drop_first().drop_first().drop_first() =~= exchange_actions(capacity, len2));
    let b = exchange_actions(capacity, len2);
    assert(b.drop_first().drop_first().drop_first().drop_first().drop_first() =~= Seq::<Action>::empty());
    reveal_with_fuel(count_writes, 11);
}

/// A malformed request gets no response: the connection is closed at once, and
/// whatever else arrives on it, nothing is written.
pub proof fn lemma_malformed_closes(capacity: usize, len: usize, rest: Seq<Event>)
    requires
        0 < len <= capacity,
    ensures
        run(capacity, Phase::AwaitingRequest, seq![Event::Received(len), Event::Malformed] + rest).0
            == Phase::Closed,
        run(capacity, Phase::AwaitingRequest, seq![Event::Received(len), Event::Malformed] + rest).1
            == seq![Action::Decode(len), Action::Close] + run(capacity, Phase::Closed, rest).1,
        count_writes(run(capacity, Phase::AwaitingRequest, seq![Event::Received(len), Event::Malformed] + rest).1) == 0,
{
    let e = seq![Event::Received(len), Event::Malformed] + rest;
    assert(e.drop_first().drop_first() =~= rest);
    lemma_closed_is_final(capacity, rest);
    let r = run(capacity, Phase::Closed, rest).1;
    let acts = seq![Action::Decode(len), Action::Close] + r;
    assert(run(capacity, Phase::Decoding, e.drop_first()).1 =~= seq![Action::Close] + r);
    assert(run(capacity, Phase::AwaitingRequest, e).1 =~= acts);
    assert(acts.drop_first().drop_first() =~= r);
    reveal_with_fuel(count_writes, 3);
}

} // verus!
