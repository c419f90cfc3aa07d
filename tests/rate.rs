use sysmon::rate::{InterfaceCounters, RateTracker};

#[test]
fn first_sight_gives_zero() {
    let mut t = RateTracker::new();
    assert_eq!(t.compute_rate("eth0", 123456, 789), (0, 0));
    assert_eq!(t.prior("eth0"), Some((123456, 789)));
    assert_eq!(t.compute_rate("wlan0", u64::MAX, 1), (0, 0));
}

#[test]
fn delta_is_growth_and_floors_at_zero() {
    let mut t = RateTracker::new();
    t.compute_rate("eth0", 100, 50);
    assert_eq!(t.compute_rate("eth0", 350, 60), (250, 10));
    assert_eq!(t.compute_rate("eth0", 10, 70), (0, 10));
    assert_eq!(t.compute_rate("eth0", 20, 5), (10, 0));
}

#[test]
fn repeat_gives_zero() {
    let mut t = RateTracker::new();
    t.compute_rate("lo", 1, 2);
    t.compute_rate("lo", 900, 1000);
    assert_eq!(t.compute_rate("lo", 900, 1000), (0, 0));
}

#[test]
fn three_cycles_one_interface() {
    let mut t = RateTracker::new();
    assert_eq!(t.compute_rate("eth0", 1000, 500), (0, 0));
    assert_eq!(t.compute_rate("eth0", 1500, 700), (500, 200));
    assert_eq!(t.compute_rate("eth0", 1400, 900), (0, 200));
}

#[test]
fn interfaces_are_kept_apart() {
    let mut t = RateTracker::new();
    t.compute_rate("a", 10, 10);
    t.compute_rate("b", 1000, 1000);
    assert_eq!(t.compute_rate("a", 15, 12), (5, 2));
    assert_eq!(t.compute_rate("b", 1001, 1003), (1, 3));
    assert_eq!(t.prior("c"), None);
}

fn counters(name: &str, rx: u64, tx: u64) -> InterfaceCounters {
    InterfaceCounters { name: name.to_string(), total_received: rx, total_transmitted: tx }
}

#[test]
fn whole_sample_in_order() {
    let mut t = RateTracker::new();
    let first = vec![counters("eth0", 1000, 500), counters("wlan0", 10, 10)];
    assert_eq!(t.compute_all(&first), vec![(0, 0), (0, 0)]);
    let second = vec![counters("eth0", 1500, 700), counters("wlan0", 5, 30), counters("tun0", 9, 9)];
    assert_eq!(t.compute_all(&second), vec![(500, 200), (0, 20), (0, 0)]);
    let third = vec![counters("eth0", 1400, 900)];
    assert_eq!(t.compute_all(&third), vec![(0, 200)]);
    assert_eq!(t.prior("wlan0"), Some((5, 30)));
}
