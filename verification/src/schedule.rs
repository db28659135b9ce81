use vstd::prelude::*;

use crate::togglable::Togglable;
use crate::togglable::{eq2, eq3, eq4};

verus! {

/// The operating mode of a device under the schedule engine.
#[derive(Debug, Clone, Copy, PartialEq, Eq, Structural)]
pub enum Mode {
    Auto,
    On,
    Off,
}

/// The exact payload tokens naming an operating mode.
pub open spec fn mode_decode(s: Seq<u8>) -> Option<Mode> {
    if s == seq!['A' as u8, 'u' as u8, 't' as u8, 'o' as u8] {
        Some(Mode::Auto)
    } else if s == seq!['O' as u8, 'n' as u8] {
        Some(Mode::On)
    } else if s == seq!['O' as u8, 'f' as u8, 'f' as u8] {
        Some(Mode::Off)
    } else {
        None
    }
}

impl Mode {
    /// Decoding of a mode command payload: the exact tokens `Auto`, `On`
    /// and `Off` select a mode; any other payload selects none, and the
    /// caller keeps the mode it had.
    pub fn from_bytes(value: &[u8]) -> (r: Option<Mode>)
        ensures
            r == mode_decode(value@),
    {
        if eq4(value, 'A' as u8, 'u' as u8, 't' as u8, 'o' as u8) {
            Some(Mode::Auto)
        } else if eq2(value, 'O' as u8, 'n' as u8) {
            Some(Mode::On)
        } else if eq3(value, 'O' as u8, 'f' as u8, 'f' as u8) {
            Some(Mode::Off)
        } else {
            None
        }
    }
}

impl Default for Mode {
    fn default() -> (r: Self)
        ensures
            r is Auto,
    {
        Self::Auto
    }
}

/// A time window with target thresholds.  Times are minutes since midnight;
/// thresholds are temperatures in hundredths of a degree.  A window whose
/// end precedes its start wraps past midnight.
#[derive(Debug, Clone, Copy, PartialEq, Eq, Structural)]
pub struct ScheduleEntry {
    pub start: u16,
    pub end: u16,
    pub low: i32,
    pub high: i32,
}

pub const MINUTES_PER_DAY: u16 = 1440;

impl ScheduleEntry {
    /// Well-formed entries keep their times inside the day and leave a dead
    /// band between the two thresholds.
    pub open spec fn wf(&self) -> bool {
        &&& self.start < MINUTES_PER_DAY
        &&& self.end < MINUTES_PER_DAY
        &&& self.low <= self.high
    }
}

/// Whether `now` lies inside the entry's half-open window, wrapping past
/// midnight when the end precedes the start.
pub open spec fn entry_matches(e: ScheduleEntry, now: u16) -> bool {
    if e.start <= e.end {
        e.start <= now < e.end
    } else {
        now >= e.start || now < e.end
    }
}

/// The first entry, in declaration order, whose window contains `now`.
pub open spec fn first_match(entries: Seq<ScheduleEntry>, now: u16) -> Option<ScheduleEntry>
    decreases entries.len(),
{
    if entries.len() == 0 {
        None
    } else if entry_matches(entries[0], now) {
        Some(entries[0])
    } else {
        first_match(entries.drop_first(), now)
    }
}

/// Hysteresis against an entry's thresholds: heat below the low threshold,
/// stop at the high one, and inside the dead band hold the previous level to
/// prevent chatter.
pub open spec fn hysteresis(e: ScheduleEntry, temp: i32, previous_level: bool) -> bool {
    if temp <= e.low {
        true
    } else if temp >= e.high {
        false
    } else {
        previous_level
    }
}

/// The schedule engine's full decision: On and Off modes force the level;
/// Auto applies hysteresis against the first matching entry, and holds the
/// previous level when no window contains `now`.
pub open spec fn decide_spec(
    now: u16,
    temp: i32,
    entries: Seq<ScheduleEntry>,
    mode: Mode,
    previous_level: bool,
) -> bool {
    match mode {
        Mode::On => true,
        Mode::Off => false,
        Mode::Auto => match first_match(entries, now) {
            Some(e) => hysteresis(e, temp, previous_level),
            None => previous_level,
        },
    }
}

proof fn lemma_first_match_skip(entries: Seq<ScheduleEntry>, now: u16, i: int)
    requires
        0 <= i <= entries.len(),
        forall|j: int| 0 <= j < i ==> !entry_matches(entries[j], now),
    ensures
        first_match(entries, now) == first_match(entries.skip(i), now),
    decreases i,
{
    if i > 0 {
        lemma_first_match_skip(entries.drop_first(), now, i - 1);
        assert(entries.drop_first().skip(i - 1) =~= entries.skip(i));
    } else {
        assert(entries.skip(0) =~= entries);
    }
}

/// The pure decision: the desired relay level from the current time, the
/// latest temperature, the schedule table, the operating mode and the
/// previous level.  Identical inputs always yield the same decision.
pub fn decide(
    now: u16,
    current_temperature: i32,
    schedule: &Vec<ScheduleEntry>,
    mode: Mode,
    previous_level: bool,
) -> (r: bool)
    ensures
        r == decide_spec(now, current_temperature, schedule@, mode, previous_level),
{
    match mode {
        Mode::On => true,
        Mode::Off => false,
        Mode::Auto => {
            let mut i: usize = 0;
            while i < schedule.len()
                invariant
                    mode is Auto,
                    0 <= i <= schedule@.len(),
                    forall|j: int| 0 <= j < i ==> !entry_matches(schedule@[j], now),
                decreases schedule@.len() - i,
            {
                let e = schedule[i];
                let matches_now = if e.start <= e.end {
                    e.start <= now && now < e.end
                } else {
                    now >= e.start || now < e.end
                };
                if matches_now {
                    proof {
                        lemma_first_match_skip(schedule@, now, i as int);
                        let rest = schedule@.skip(i as int);
                        assert(rest.len() > 0);
                        assert(rest[0] == schedule@[i as int]);
                        assert(first_match(rest, now) == Some(rest[0]));
                    }
                    return if current_temperature <= e.low {
                        true
                    } else if current_temperature >= e.high {
                        false
                    } else {
                        previous_level
                    };
                }
                i = i + 1;
            }
            proof {
                lemma_first_match_skip(schedule@, now, schedule@.len() as int);
            }
            previous_level
        },
    }
}

/// The synthetic command injected into the relay's inbox when the decision
/// differs from the relay's last known level: an explicit On or Off, never
/// Toggle, and nothing at all when the levels already agree.
pub fn synthetic_command(decision: bool, last_level: bool) -> (r: Option<Togglable>)
    ensures
        decision == last_level ==> r is None,
        decision != last_level ==> r == Some(if decision {
            Togglable::On
        } else {
            Togglable::Off
        }),
        r matches Some(c) ==> c != Togglable::Toggle,
{
    if decision == last_level {
        None
    } else if decision {
        Some(Togglable::On)
    } else {
        Some(Togglable::Off)
    }
}

/// With no schedule entry matching `now`, the Auto decision returns the
/// previous level unchanged, regardless of the temperature.
pub proof fn lemma_no_match_holds_level(
    now: u16,
    temp: i32,
    entries: Seq<ScheduleEntry>,
    previous_level: bool,
)
    requires
        first_match(entries, now) is None,
    ensures
        decide_spec(now, temp, entries, Mode::Auto, previous_level) == previous_level,
{
}

/// Inside the dead band the Auto decision holds the previous level: a
/// temperature strictly between the matched entry's thresholds never flips
/// the output.
pub proof fn lemma_dead_band_holds_level(
    now: u16,
    temp: i32,
    entries: Seq<ScheduleEntry>,
    previous_level: bool,
    e: ScheduleEntry,
)
    requires
        first_match(entries, now) == Some(e),
        e.low < temp < e.high,
    ensures
        decide_spec(now, temp, entries, Mode::Auto, previous_level) == previous_level,
{
}

} // verus!
