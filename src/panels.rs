//! Text lines of the dashboard's panels.
use vstd::prelude::*;
use crate::battery::{state_label, state_label_of, BatteryReading};
use crate::text::{dec, decimal, fixed2, fixed_two, pad, pad_with};
use crate::units::{hundredths_of, kib_hundredths, KIB};

verus! {

/// A rate in hundredths of KB/s, right-aligned in six places, then ` KB/s`.
pub open spec fn rate_text(bytes: u64) -> Seq<char> {
    pad_with(' ', fixed2(hundredths_of(bytes as nat, KIB as nat)), 6) + seq![
        ' ',
        'K',
        'B',
        '/',
        's',
    ]
}

/// `Interface: <name> | ↓ <down> KB/s | ↑ <up> KB/s`, byte deltas shown in KB.
pub open spec fn interface_line_of(name: Seq<char>, down: u64, up: u64) -> Seq<char> {
    seq!['I', 'n', 't', 'e', 'r', 'f', 'a', 'c', 'e', ':', ' '] + name + seq![
        ' ',
        '|',
        ' ',
        '\u{2193}',
        ' ',
    ] + rate_text(down) + seq![' ', '|', ' ', '\u{2191}', ' '] + rate_text(up)
}

/// `Process: <name> | PID: <pid> | Memory: <bytes>B | CPU: <pct>%`.
pub open spec fn process_line_of(name: Seq<char>, pid: u32, memory: u64, cpu_bps: u64) -> Seq<
    char,
> {
    seq!['P', 'r', 'o', 'c', 'e', 's', 's', ':', ' '] + name + seq![
        ' ',
        '|',
        ' ',
        'P',
        'I',
        'D',
        ':',
        ' ',
    ] + dec(pid as nat) + seq![' ', '|', ' ', 'M', 'e', 'm', 'o', 'r', 'y', ':', ' '] + dec(
        memory as nat,
    ) + seq!['B', ' ', '|', ' ', 'C', 'P', 'U', ':', ' '] + fixed2(cpu_bps as nat) + seq!['%']
}

/// The placeholder shown for a value that could not be read.
pub open spec fn unavailable() -> Seq<char> {
    seq!['n', '/', 'a']
}

/// The battery's charge as a percentage with two decimals and its state label,
/// or the placeholder for both when no battery reported.
pub open spec fn battery_fields_of(b: Option<BatteryReading>) -> (Seq<char>, Seq<char>) {
    match b {
        None => (unavailable(), unavailable()),
        Some(r) => (fixed2(r.charge_bps as nat) + seq!['%'], state_label_of(r.state)),
    }
}

fn rate(bytes: u64) -> (r: String)
    ensures
        r@ == rate_text(bytes),
{
    proof {
        reveal_strlit(" ");
        reveal_strlit(" KB/s");
    }
    let mut r = pad(" ", fixed_two(kib_hundredths(bytes)), 6);
    r.append(" KB/s");
    assert(r@ =~= rate_text(bytes));
    r
}

/// The network panel's line for one interface and its byte deltas.
pub fn interface_line(name: &str, down: u64, up: u64) -> (r: String)
    ensures
        r@ == interface_line_of(name@, down, up),
{
    proof {
        reveal_strlit("Interface: ");
        reveal_strlit(" | \u{2193} ");
        reveal_strlit(" | \u{2191} ");
    }
    let mut r = String::from_str("Interface: ");
    r.append(name);
    r.append(" | \u{2193} ");
    r.append(rate(down).as_str());
    r.append(" | \u{2191} ");
    r.append(rate(up).as_str());
    assert(r@ =~= interface_line_of(name@, down, up));
    r
}

/// The process panel's line for one process.
pub fn process_line(name: &str, pid: u32, memory: u64, cpu_bps: u64) -> (r: String)
    ensures
        r@ == process_line_of(name@, pid, memory, cpu_bps),
{
    proof {
        reveal_strlit("Process: ");
        reveal_strlit(" | PID: ");
        reveal_strlit(" | Memory: ");
        reveal_strlit("B | CPU: ");
        reveal_strlit("%");
    }
    let mut r = String::from_str("Process: ");
    r.append(name);
    r.append(" | PID: ");
    r.append(decimal(pid as u64).as_str());
    r.append(" | Memory: ");
    r.append(decimal(memory).as_str());
    r.append("B | CPU: ");
    r.append(fixed_two(cpu_bps).as_str());
    r.append("%");
    assert(r@ =~= process_line_of(name@, pid, memory, cpu_bps));
    r
}

/// The battery panel's charge and state texts.
pub fn battery_fields(b: Option<BatteryReading>) -> (r: (String, String))
    ensures
        (r.0@, r.1@) == battery_fields_of(b),
{
    proof {
        reveal_strlit("n/a");
        reveal_strlit("%");
        assert("n/a"@ =~= unavailable());
    }
    match b {
        None => (String::from_str("n/a"), String::from_str("n/a")),
        Some(reading) => {
            let mut p = fixed_two(reading.charge_bps);
            p.append("%");
            assert(p@ =~= fixed2(reading.charge_bps as nat) + seq!['%']);
            (p, state_label(reading.state))
        },
    }
}

} // verus!
