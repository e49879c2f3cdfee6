//! Wall-clock time of day reported in responses: Unix seconds shifted by a
//! fixed offset of three hours, shown as zero-padded "hh:mm:ss".
use vstd::prelude::*;

verus! {

/// Offset added to Unix time before it is split into a time of day.
pub const ZONE_OFFSET_SECS: u64 = 10800;

pub const SECS_PER_DAY: u64 = 86400;

/// Shifted time of the Unix second `unix_secs`.
pub open spec fn shifted(unix_secs: nat) -> nat {
    unix_secs + 10800
}

/// Seconds since the start of the (shifted) day.
pub open spec fn second_of_day(unix_secs: nat) -> nat {
    shifted(unix_secs) % 86400
}

/// Day number of the shifted time.
pub open spec fn day_of(unix_secs: nat) -> nat {
    shifted(unix_secs) / 86400
}

/// Time of day: hours, minutes and seconds.
#[derive(Debug, Clone, Copy, PartialEq, Eq, Structural)]
pub struct ClockTime {
    pub hours: u64,
    pub minutes: u64,
    pub seconds: u64,
}

impl ClockTime {
    pub open spec fn wf(&self) -> bool {
        self.hours < 24 && self.minutes < 60 && self.seconds < 60
    }

    pub open spec fn second_of_day(&self) -> nat {
        self.hours as nat * 3600 + self.minutes as nat * 60 + self.seconds as nat
    }

    /// Time of day of the Unix second `unix_secs`.
    pub fn of_unix(unix_secs: u64) -> (r: ClockTime)
        ensures
            r.wf(),
            r.hours as nat == shifted(unix_secs as nat) % 86400 / 3600,
            r.minutes as nat == shifted(unix_secs as nat) % 3600 / 60,
            r.seconds as nat == shifted(unix_secs as nat) % 60,
            r.second_of_day() == second_of_day(unix_secs as nat),
    {
        let t = unix_secs % SECS_PER_DAY + ZONE_OFFSET_SECS;
        let d = t % SECS_PER_DAY;
        proof {
            let u = unix_secs as nat;
            assert(d as nat == shifted(u) % 86400) by (nonlinear_arith)
                requires
                    t as nat == u % 86400 + 10800,
                    d as nat == t as nat % 86400,
            {
                vstd::arithmetic::div_mod::lemma_add_mod_noop(u as int, 10800, 86400);
                vstd::arithmetic::div_mod::lemma_mod_twice(u as int, 86400);
            }
            assert(shifted(u) % 3600 == d as nat % 3600) by {
                vstd::arithmetic::div_mod::lemma_mod_mod(shifted(u) as int, 3600, 24);
            }
            assert(shifted(u) % 60 == d as nat % 60) by {
                vstd::arithmetic::div_mod::lemma_mod_mod(shifted(u) as int, 60, 1440);
            }
            assert(d as nat == d as nat / 3600 * 3600 + d as nat % 3600 / 60 * 60 + d as nat % 60)
                by (nonlinear_arith)
            {
                vstd::arithmetic::div_mod::lemma_fundamental_div_mod(d as int, 3600);
                vstd::arithmetic::div_mod::lemma_fundamental_div_mod(d as int % 3600, 60);
                vstd::arithmetic::div_mod::lemma_mod_mod(d as int, 60, 60);
            }
        }
        ClockTime { hours: d / 3600, minutes: d % 3600 / 60, seconds: d % 60 }
    }

    /// "hh:mm:ss", each part two decimal digits.
    pub fn render(&self) -> (r: String)
        requires
            self.wf(),
        ensures
            r@ == clock_text(self.hours as nat, self.minutes as nat, self.seconds as nat),
    {
        let mut r = String::new();
        push_two_digits(&mut r, self.hours);
        proof {
            reveal_strlit(":");
        }
        r.append(":");
        push_two_digits(&mut r, self.minutes);
        r.append(":");
        push_two_digits(&mut r, self.seconds);
        r
    }
}

pub open spec fn digit_char(d: nat) -> char {
    seq!['0', '1', '2', '3', '4', '5', '6', '7', '8', '9'][d as int]
}

/// `n` as two decimal digits, for `n < 100`.
pub open spec fn two_digits(n: nat) -> Seq<char> {
    seq![digit_char(n / 10), digit_char(n % 10)]
}

pub open spec fn clock_text(h: nat, m: nat, s: nat) -> Seq<char> {
    two_digits(h) + seq![':'] + two_digits(m) + seq![':'] + two_digits(s)
}

/// Text reported as the timestamp of a response made at Unix second `unix_secs`.
pub open spec fn timestamp_text(unix_secs: nat) -> Seq<char> {
    clock_text(
        shifted(unix_secs) % 86400 / 3600,
        shifted(unix_secs) % 3600 / 60,
        shifted(unix_secs) % 60,
    )
}

fn digit_str(d: u64) -> (r: &'static str)
    requires
        d < 10,
    ensures
        r@ == seq![digit_char(d as nat)],
{
    match d {
        0 => { proof { reveal_strlit("0"); } "0" },
        1 => { proof { reveal_strlit("1"); } "1" },
        2 => { proof { reveal_strlit("2"); } "2" },
        3 => { proof { reveal_strlit("3"); } "3" },
        4 => { proof { reveal_strlit("4"); } "4" },
        5 => { proof { reveal_strlit("5"); } "5" },
        6 => { proof { reveal_strlit("6"); } "6" },
        7 => { proof { reveal_strlit("7"); } "7" },
        8 => { proof { reveal_strlit("8"); } "8" },
        _ => { proof { reveal_strlit("9"); } "9" },
    }
}

fn push_two_digits(s: &mut String, n: u64)
    requires
        n < 100,
    ensures
        final(s)@ == old(s)@ + two_digits(n as nat),
{
    s.append(digit_str(n / 10));
    s.append(digit_str(n % 10));
    assert(final(s)@ =~= old(s)@ + two_digits(n as nat));
}

/// The timestamp text of a response made at Unix second `unix_secs`.
pub fn timestamp(unix_secs: u64) -> (r: String)
    ensures
        r@ == timestamp_text(unix_secs as nat),
{
    ClockTime::of_unix(unix_secs).render()
}

/// Of two requests at least a second apart, the later one never shows an
/// earlier time: within a day its time of day is not smaller, and where it
/// shows a smaller time of day, a day has rolled over.
pub proof fn lemma_timestamps_non_decreasing(first: nat, second: nat)
    requires
        first + 1 <= second,
    ensures
        day_of(first) <= day_of(second),
        day_of(first) == day_of(second) ==> second_of_day(first) < second_of_day(second),
        second_of_day(second) <= second_of_day(first) ==> day_of(first) < day_of(second),
{
    let a = shifted(first) as int;
    let b = shifted(second) as int;
    vstd::arithmetic::div_mod::lemma_div_is_ordered(a, b, 86400);
    vstd::arithmetic::div_mod::lemma_fundamental_div_mod(a, 86400);
    vstd::arithmetic::div_mod::lemma_fundamental_div_mod(b, 86400);
}

} // verus!
