//! Interval gating: the ticker that limits a system's processing to every Nth
//! tick or to a fixed wall-clock interval, the system wrapper around it, and
//! the parsing of declarative interval specifications.

use vstd::prelude::*;

use crate::clock::now_ns;
use crate::entity::EntityData;
use crate::system::{Process, System};
use crate::world::DataHelper;
use vstd::string::StrSliceExecFns;

verus! {

/// `a + b`, stuck at the top of the range instead of wrapping.
pub open spec fn sat_add(a: u64, b: u64) -> u64 {
    if a + b <= u64::MAX {
        (a + b) as u64
    } else {
        u64::MAX
    }
}

/// Gating state for interval systems: fire every `interval` frames, or fire
/// whenever wall-clock time passes a deadline that advances by exactly
/// `interval` nanoseconds each firing.
#[derive(Copy, Clone, Debug)]
pub enum TickerState {
    Frames { interval: u64, ticks: u64 },
    Timed { interval: u64, next_tick: Option<u64> },
}

impl TickerState {
    /// What one tick decides at time `now`, which the frame-count variant
    /// ignores: whether the ticker fires, and the next state.
    pub open spec fn spec_tick(self, now: u64) -> (bool, TickerState) {
        match self {
            TickerState::Frames { interval, ticks } => {
                if ticks + 1 >= interval {
                    (true, TickerState::Frames { interval, ticks: 0 })
                } else {
                    (false, TickerState::Frames { interval, ticks: (ticks + 1) as u64 })
                }
            },
            TickerState::Timed { interval, next_tick } => {
                match next_tick {
                    None => (
                        false,
                        TickerState::Timed { interval, next_tick: Some(sat_add(now, interval)) },
                    ),
                    Some(deadline) => {
                        if now >= deadline {
                            (
                                true,
                                TickerState::Timed {
                                    interval,
                                    next_tick: Some(sat_add(deadline, interval)),
                                },
                            )
                        } else {
                            (false, self)
                        }
                    },
                }
            },
        }
    }

    /// One ticker decision at the given time. The frame variant counts calls and
    /// fires (resetting the count) every `interval`-th call. The timed variant
    /// never fires on its first call, which only fixes the deadline `now +
    /// interval`; later calls fire once `now` reaches the deadline and then
    /// advance it by exactly one interval — not re-based on `now`, so late
    /// calls do not accumulate drift.
    pub fn tick_at(&mut self, now: u64) -> (fire: bool)
        ensures
            (fire, *final(self)) == old(self).spec_tick(now),
    {
        match *self {
            TickerState::Frames { interval, ticks } => {
                if interval == 0 || ticks >= interval - 1 {
                    *self = TickerState::Frames { interval, ticks: 0 };
                    true
                } else {
                    *self = TickerState::Frames { interval, ticks: ticks + 1 };
                    false
                }
            },
            TickerState::Timed { interval, next_tick } => {
                match next_tick {
                    None => {
                        *self = TickerState::Timed {
                            interval,
                            next_tick: Some(now.saturating_add(interval)),
                        };
                        false
                    },
                    Some(deadline) => {
                        if now >= deadline {
                            *self = TickerState::Timed {
                                interval,
                                next_tick: Some(deadline.saturating_add(interval)),
                            };
                            true
                        } else {
                            false
                        }
                    },
                }
            },
        }
    }

    /// One ticker decision against the real clock: reads the time and decides as
    /// `tick_at` does for some current time.
    pub fn tick(&mut self) -> (fire: bool)
        ensures
            exists|now: u64| (fire, *final(self)) == old(self).spec_tick(now),
    {
        let now = now_ns();
        self.tick_at(now)
    }
}

/// Provides the ticker an interval system starts from.
pub trait SystemInterval: System {
    spec fn spec_interval() -> TickerState;

    fn create_interval() -> (r: TickerState)
        ensures
            r == Self::spec_interval(),
    ;
}

/// Wraps a system so that its processing step runs only on the calls where
/// the ticker fires; lifecycle calls always pass straight through.
#[derive(Copy, Clone, Debug)]
pub struct IntervalSystem<T: SystemInterval> {
    pub inner: T,
    pub ticker: TickerState,
}

impl<T: SystemInterval> System for IntervalSystem<T> {
    type Components = T::Components;

    type Services = T::Services;

    fn build_system() -> (r: Self)
        ensures
            r.ticker == T::spec_interval(),
    {
        IntervalSystem { inner: T::build_system(), ticker: T::create_interval() }
    }

    fn activated(
        &mut self,
        entity: EntityData,
        components: &T::Components,
        services: &mut T::Services,
    )
        ensures
            final(self).ticker == old(self).ticker,
    {
        self.inner.activated(entity, components, services);
    }

    fn reactivated(
        &mut self,
        entity: EntityData,
        components: &T::Components,
        services: &mut T::Services,
    )
        ensures
            final(self).ticker == old(self).ticker,
    {
        self.inner.reactivated(entity, components, services);
    }

    fn deactivated(
        &mut self,
        entity: EntityData,
        components: &T::Components,
        services: &mut T::Services,
    )
        ensures
            final(self).ticker == old(self).ticker,
    {
        self.inner.deactivated(entity, components, services);
    }
}

impl<T: SystemInterval + Process> Process for IntervalSystem<T> {
    /// Forwards the processing step to the inner system exactly on the calls
    /// where the ticker fires; the ticker always advances one step.
    fn process(&mut self, data: &mut DataHelper<T::Components, T::Services>)
        ensures
            exists|now: u64| final(self).ticker == (old(self).ticker.spec_tick(now)).1,
    {
        if self.ticker.tick() {
            self.inner.process(data);
        }
    }
}

/// Whether `s` is a nonempty string of decimal digits.
pub open spec fn is_dec_digits(s: Seq<char>) -> bool {
    s.len() > 0 && forall|i: int| 0 <= i < s.len() ==> '0' <= #[trigger] s[i] <= '9'
}

/// The numeric value of a string of decimal digits.
pub open spec fn dec_value(s: Seq<char>) -> int
    decreases s.len(),
{
    if s.len() == 0 {
        0
    } else {
        dec_value(s.drop_last()) * 10 + (s.last() as int - '0' as int)
    }
}

proof fn lemma_dec_value_nonneg(s: Seq<char>)
    requires
        forall|i: int| 0 <= i < s.len() ==> '0' <= #[trigger] s[i] <= '9',
    ensures
        dec_value(s) >= 0,
    decreases s.len(),
{
    if s.len() > 0 {
        lemma_dec_value_nonneg(s.drop_last());
    }
}

proof fn lemma_dec_value_prefix(s: Seq<char>, i: int)
    requires
        forall|k: int| 0 <= k < s.len() ==> '0' <= #[trigger] s[k] <= '9',
        0 <= i <= s.len(),
    ensures
        dec_value(s.take(i)) <= dec_value(s),
    decreases s.len() - i,
{
    if i < s.len() {
        lemma_dec_value_prefix(s, i + 1);
        let t = s.take(i + 1);
        assert(t.drop_last() =~= s.take(i));
        assert(forall|k: int| 0 <= k < t.len() ==> '0' <= #[trigger] t[k] <= '9');
        lemma_dec_value_nonneg(s.take(i));
        assert(dec_value(t) == dec_value(s.take(i)) * 10 + (s[i] as int - '0' as int));
    } else {
        assert(s.take(i) =~= s);
    }
}

/// Parses a nonempty all-decimal string as a number; yields `None` exactly
/// when the string is not all digits, is empty, or names a value over the
/// 64-bit range.
pub fn parse_u64(time: &str) -> (r: Option<u64>)
    ensures
        match r {
            Some(v) => is_dec_digits(time@) && v == dec_value(time@),
            None => !(is_dec_digits(time@) && dec_value(time@) <= u64::MAX),
        },
{
    let n = time.unicode_len();
    if n == 0 {
        return None;
    }
    let mut acc: u64 = 0;
    let mut i: usize = 0;
    while i < n
        invariant
            0 < n == time@.len(),
            i <= n,
            forall|k: int| 0 <= k < i ==> '0' <= #[trigger] time@[k] <= '9',
            acc == dec_value(time@.take(i as int)),
        decreases n - i,
    {
        let c = time.get_char(i);
        if c < '0' || c > '9' {
            return None;
        }
        let d: u64 = (c as u32 as u64) - 48;
        proof {
            assert(time@.take(i + 1 as int).drop_last() =~= time@.take(i as int));
            assert(time@.take(i + 1 as int).last() == time@[i as int]);
        }
        if acc > (u64::MAX - d) / 10 {
            proof {
                if is_dec_digits(time@) {
                    lemma_dec_value_prefix(time@, i + 1 as int);
                }
            }
            return None;
        }
        acc = acc * 10 + d;
        i += 1;
    }
    proof {
        assert(time@.take(n as int) =~= time@);
    }
    Some(acc)
}

/// A frame-count ticker starting at zero.
pub fn frame_iv(iv: u64) -> (r: TickerState)
    ensures
        r == (TickerState::Frames { interval: iv, ticks: 0 }),
{
    TickerState::Frames { interval: iv, ticks: 0 }
}

/// A wall-clock ticker with no deadline fixed yet.
pub fn frame_ns(ns: u64) -> (r: TickerState)
    ensures
        r == (TickerState::Timed { interval: ns, next_tick: None }),
{
    TickerState::Timed { interval: ns, next_tick: None }
}

pub open spec fn spec_timed_of(digits: Seq<char>, mult: int) -> Option<TickerState> {
    if is_dec_digits(digits) && dec_value(digits) * mult <= u64::MAX {
        Some(
            TickerState::Timed {
                interval: (dec_value(digits) * mult) as u64,
                next_tick: None,
            },
        )
    } else {
        None
    }
}

pub open spec fn spec_frames_of(digits: Seq<char>) -> Option<TickerState> {
    if is_dec_digits(digits) && dec_value(digits) <= u64::MAX {
        Some(TickerState::Frames { interval: dec_value(digits) as u64, ticks: 0 })
    } else {
        None
    }
}

pub open spec fn is_micro_mark(c: char) -> bool {
    c == 'u' || c as u32 == 0x3BC
}

/// What parsing a duration string yields: a bare number is a frame count; the
/// suffixes `s`, `ms`, `us` (with the Greek letter mu also accepted) and `ns`
/// name wall-clock durations, converted to nanoseconds.
pub open spec fn spec_parse_iv_time(s: Seq<char>) -> Option<TickerState> {
    let n = s.len() as int;
    if n > 2 && s[n - 2] == 'm' && s[n - 1] == 's' {
        spec_timed_of(s.take(n - 2), 1000000)
    } else if n > 2 && is_micro_mark(s[n - 2]) && s[n - 1] == 's' {
        spec_timed_of(s.take(n - 2), 1000)
    } else if n > 2 && s[n - 2] == 'n' && s[n - 1] == 's' {
        spec_timed_of(s.take(n - 2), 1)
    } else if n > 1 && s[n - 1] == 's' {
        spec_timed_of(s.take(n - 1), 1000000000)
    } else {
        spec_frames_of(s)
    }
}

fn timed_of(digits: &str, mult: u64) -> (r: Option<TickerState>)
    requires
        1 <= mult,
    ensures
        r == spec_timed_of(digits@, mult as int),
{
    match parse_u64(digits) {
        Some(v) => {
            match v.checked_mul(mult) {
                Some(ns) => Some(TickerState::Timed { interval: ns, next_tick: None }),
                None => None,
            }
        },
        None => {
            proof {
                if is_dec_digits(digits@) {
                    lemma_dec_value_nonneg(digits@);
                    assert(dec_value(digits@) > u64::MAX);
                    assert(dec_value(digits@) * mult > u64::MAX) by (nonlinear_arith)
                        requires
                            dec_value(digits@) > u64::MAX,
                            mult >= 1,
                    ;
                }
            }
            None
        },
    }
}

/// Parses a duration or frame-count string, exactly as `spec_parse_iv_time`
/// lays it out; yields `None` on anything malformed or out of range.
pub fn parse_iv_time(time: &str) -> (r: Option<TickerState>)
    ensures
        r == spec_parse_iv_time(time@),
{
    let n = time.unicode_len();
    if n > 2 && time.get_char(n - 2) == 'm' && time.get_char(n - 1) == 's' {
        timed_of(time.substring_char(0, n - 2), 1000000)
    } else if n > 2 && {
        let c = time.get_char(n - 2);
        c == 'u' || c as u32 == 0x3BC
    } && time.get_char(n - 1) == 's' {
        timed_of(time.substring_char(0, n - 2), 1000)
    } else if n > 2 && time.get_char(n - 2) == 'n' && time.get_char(n - 1) == 's' {
        timed_of(time.substring_char(0, n - 2), 1)
    } else if n > 1 && time.get_char(n - 1) == 's' {
        timed_of(time.substring_char(0, n - 1), 1000000000)
    } else {
        match parse_u64(time) {
            Some(v) => Some(TickerState::Frames { interval: v, ticks: 0 }),
            None => {
                proof {
                    if is_dec_digits(time@) {
                        lemma_dec_value_nonneg(time@);
                    }
                }
                None
            },
        }
    }
}

/// A declarative interval specification: a bare tick count, a suffixed
/// duration string, or an explicit unit/value pair.
pub enum IntervalSpec {
    Ticks(u64),
    TimeStr(String),
    Tagged { unit: String, value: u64 },
}

pub open spec fn unit_is(s: Seq<char>, a: char) -> bool {
    s.len() == 1 && s[0] == a
}

pub open spec fn unit_is2(s: Seq<char>, a: char, b: char) -> bool {
    s.len() == 2 && s[0] == a && s[1] == b
}

/// What the explicit unit/value form yields: the key `ticks` forces a frame
/// count whatever the value; the keys `s`, `ms`, `us` (or with the Greek
/// letter mu), `ns` give wall-clock durations; anything else is malformed.
pub open spec fn spec_parse_explicit_iv(unit: Seq<char>, value: u64) -> Option<TickerState> {
    if unit =~= seq!['t', 'i', 'c', 'k', 's'] {
        Some(TickerState::Frames { interval: value, ticks: 0 })
    } else if unit_is(unit, 's') {
        if value * 1000000000 <= u64::MAX {
            Some(TickerState::Timed { interval: (value * 1000000000) as u64, next_tick: None })
        } else {
            None
        }
    } else if unit_is2(unit, 'm', 's') {
        if value * 1000000 <= u64::MAX {
            Some(TickerState::Timed { interval: (value * 1000000) as u64, next_tick: None })
        } else {
            None
        }
    } else if unit.len() == 2 && is_micro_mark(unit[0]) && unit[1] == 's' {
        if value * 1000 <= u64::MAX {
            Some(TickerState::Timed { interval: (value * 1000) as u64, next_tick: None })
        } else {
            None
        }
    } else if unit_is2(unit, 'n', 's') {
        Some(TickerState::Timed { interval: value, next_tick: None })
    } else {
        None
    }
}

fn str_is_ticks(unit: &str) -> (r: bool)
    ensures
        r == (unit@ =~= seq!['t', 'i', 'c', 'k', 's']),
{
    let n = unit.unicode_len();
    let r = n == 5 && unit.get_char(0) == 't' && unit.get_char(1) == 'i' && unit.get_char(2) == 'c'
        && unit.get_char(3) == 'k' && unit.get_char(4) == 's';
    proof {
        let t = seq!['t', 'i', 'c', 'k', 's'];
        if r {
            assert(unit@ =~= t);
        } else {
            if unit@ =~= t {
                assert(unit@.len() == 5);
            }
        }
    }
    r
}

/// Parses the explicit unit/value form, exactly as `spec_parse_explicit_iv`
/// lays it out.
pub fn parse_explicit_iv(unit: &str, value: u64) -> (r: Option<TickerState>)
    ensures
        r == spec_parse_explicit_iv(unit@, value),
{
    let n = unit.unicode_len();
    if str_is_ticks(unit) {
        Some(TickerState::Frames { interval: value, ticks: 0 })
    } else if n == 1 && unit.get_char(0) == 's' {
        if value <= u64::MAX / 1000000000 {
            Some(TickerState::Timed { interval: value * 1000000000, next_tick: None })
        } else {
            None
        }
    } else if n == 2 && unit.get_char(0) == 'm' && unit.get_char(1) == 's' {
        if value <= u64::MAX / 1000000 {
            Some(TickerState::Timed { interval: value * 1000000, next_tick: None })
        } else {
            None
        }
    } else if n == 2 && {
        let c = unit.get_char(0);
        c == 'u' || c as u32 == 0x3BC
    } && unit.get_char(1) == 's' {
        if value <= u64::MAX / 1000 {
            Some(TickerState::Timed { interval: value * 1000, next_tick: None })
        } else {
            None
        }
    } else if n == 2 && unit.get_char(0) == 'n' && unit.get_char(1) == 's' {
        Some(TickerState::Timed { interval: value, next_tick: None })
    } else {
        None
    }
}

/// What parsing a whole interval specification yields.
pub open spec fn spec_parse_interval(spec: IntervalSpec) -> Option<TickerState> {
    match spec {
        IntervalSpec::Ticks(v) => Some(TickerState::Frames { interval: v, ticks: 0 }),
        IntervalSpec::TimeStr(s) => spec_parse_iv_time(s@),
        IntervalSpec::Tagged { unit, value } => spec_parse_explicit_iv(unit@, value),
    }
}

/// Parses a declarative interval specification: a bare integer means a frame
/// count; a suffixed string means a wall-clock duration; the explicit form
/// with key `ticks` forces a frame count regardless of value.
pub fn parse_interval(spec: &IntervalSpec) -> (r: Option<TickerState>)
    ensures
        r == spec_parse_interval(*spec),
{
    match spec {
        IntervalSpec::Ticks(v) => Some(TickerState::Frames { interval: *v, ticks: 0 }),
        IntervalSpec::TimeStr(s) => parse_iv_time(s.as_str()),
        IntervalSpec::Tagged { unit, value } => parse_explicit_iv(unit.as_str(), *value),
    }
}

} // verus!
