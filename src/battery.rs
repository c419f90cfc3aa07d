//! Battery status, and the throttle that re-reads it at most every 400 seconds.
use vstd::prelude::*;

verus! {

/// Seconds a battery reading stays fresh.
pub const BATTERY_TTL_SECS: u64 = 400;

/// Charging state of a battery.
#[derive(Clone, Copy, Debug, PartialEq, Eq, Structural)]
pub enum ChargeState {
    Charging,
    Discharging,
    Full,
    Empty,
    Unknown,
}

/// The label shown for a charging state.
pub open spec fn state_label_of(s: ChargeState) -> Seq<char> {
    match s {
        ChargeState::Charging => seq!['C', 'h', 'a', 'r', 'g', 'i', 'n', 'g'],
        ChargeState::Discharging => seq!['D', 'i', 's', 'c', 'h', 'a', 'r', 'g', 'i', 'n', 'g'],
        ChargeState::Full => seq!['F', 'u', 'l', 'l'],
        ChargeState::Empty => seq!['E', 'm', 'p', 't', 'y'],
        ChargeState::Unknown => seq!['U', 'n', 'k', 'n', 'o', 'w', 'n'],
    }
}

/// The label shown for a charging state.
pub fn state_label(s: ChargeState) -> (r: String)
    ensures
        r@ == state_label_of(s),
{
    proof {
        reveal_strlit("Charging");
        reveal_strlit("Discharging");
        reveal_strlit("Full");
        reveal_strlit("Empty");
        reveal_strlit("Unknown");
    }
    let t = match s {
        ChargeState::Charging => "Charging",
        ChargeState::Discharging => "Discharging",
        ChargeState::Full => "Full",
        ChargeState::Empty => "Empty",
        ChargeState::Unknown => "Unknown",
    };
    let r = String::from_str(t);
    assert(r@ =~= state_label_of(s));
    r
}

/// One battery's charge, in basis points of full (10000 is a full battery),
/// and its state.
#[derive(Clone, Copy, Debug, PartialEq, Eq, Structural)]
pub struct BatteryReading {
    pub charge_bps: u64,
    pub state: ChargeState,
}

/// The reading shown when several batteries report: the last one enumerated;
/// none when no battery reports.
pub fn last_reading(readings: &Vec<BatteryReading>) -> (r: Option<BatteryReading>)
    ensures
        readings@.len() == 0 ==> r.is_none(),
        readings@.len() > 0 ==> r == Some(readings@.last()),
{
    if readings.len() == 0 {
        None
    } else {
        Some(readings[readings.len() - 1])
    }
}

/// Whether a cache refreshed at `refreshed` (never, if none) is due at `now`.
pub open spec fn due_at(refreshed: Option<u64>, now: u64) -> bool {
    match refreshed {
        None => true,
        Some(t) => now >= t + BATTERY_TTL_SECS,
    }
}

/// The last battery reading and when it was taken, in seconds of a monotonic clock.
pub struct BatteryCache {
    pub reading: Option<BatteryReading>,
    pub refreshed_at: Option<u64>,
}

impl BatteryCache {
    /// A cache that has never been filled.
    pub fn new() -> (r: Self)
        ensures
            r.reading.is_none(),
            r.refreshed_at.is_none(),
    {
        BatteryCache { reading: None, refreshed_at: None }
    }

    /// Whether the battery must be read again at `now`: never read, or read
    /// at least 400 seconds ago.
    pub fn is_due(&self, now: u64) -> (r: bool)
        ensures
            r == due_at(self.refreshed_at, now),
    {
        match self.refreshed_at {
            None => true,
            Some(t) => now >= t && now - t >= BATTERY_TTL_SECS,
        }
    }

    /// Keeps a fresh reading taken at `now`.
    pub fn store(&mut self, now: u64, reading: Option<BatteryReading>)
        ensures
            final(self).reading == reading,
            final(self).refreshed_at == Some(now),
    {
        self.reading = reading;
        self.refreshed_at = Some(now);
    }
}

/// Two requests less than 400 seconds after a refresh both get the cached
/// reading, whatever a read would have given; a request 400 or more seconds
/// after the refresh reads afresh.
pub proof fn lemma_cache_throttles(
    reading: Option<BatteryReading>,
    refreshed: u64,
    first: u64,
    second: u64,
    third: u64,
)
    requires
        refreshed <= first <= second < refreshed + BATTERY_TTL_SECS,
        third >= refreshed + BATTERY_TTL_SECS,
    ensures
        !due_at(Some(refreshed), first),
        !due_at(Some(refreshed), second),
        due_at(Some(refreshed), third),
{
}

} // verus!
