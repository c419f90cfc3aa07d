//! Per-interface network throughput from cumulative byte counters.
use vstd::prelude::*;

verus! {

/// `a - b`, or zero when `b` exceeds `a` (a counter that was reset).
pub open spec fn floor_sub(a: u64, b: u64) -> u64 {
    if a >= b {
        (a - b) as u64
    } else {
        0
    }
}

/// The (download, upload) delta for an interface whose last seen counters
/// are `prior` (none on first sight) and whose current ones are `(rx, tx)`.
pub open spec fn delta_of(prior: Option<(u64, u64)>, rx: u64, tx: u64) -> (u64, u64) {
    match prior {
        None => (0, 0),
        Some((r0, t0)) => (floor_sub(rx, r0), floor_sub(tx, t0)),
    }
}

/// Last seen cumulative counters of one network interface.
pub struct InterfaceCounters {
    pub name: String,
    pub total_received: u64,
    pub total_transmitted: u64,
}

/// Remembers, per interface name, the counters of the previous sample.
pub struct RateTracker {
    entries: Vec<InterfaceCounters>,
    model: Ghost<Map<Seq<char>, (u64, u64)>>,
}

impl RateTracker {
    /// Interface name to last seen (received, transmitted).
    pub closed spec fn view(&self) -> Map<Seq<char>, (u64, u64)> {
        self.model@
    }

    /// Names are unique, and the entries hold exactly the model.
    pub closed spec fn wf(&self) -> bool {
        &&& forall|i: int, j: int|
            0 <= i < j < self.entries@.len() ==> self.entries@[i].name@ != self.entries@[j].name@
        &&& forall|i: int|
            0 <= i < self.entries@.len() ==> #[trigger] self.model@.contains_key(
                self.entries@[i].name@,
            ) && self.model@[self.entries@[i].name@] == (
                self.entries@[i].total_received,
                self.entries@[i].total_transmitted,
            )
        &&& forall|k: Seq<char>|
            #[trigger] self.model@.contains_key(k) ==> exists|i: int|
                0 <= i < self.entries@.len() && self.entries@[i].name@ == k
    }

    /// A tracker that has seen no interface.
    pub fn new() -> (r: Self)
        ensures
            r.wf(),
            r@ == Map::<Seq<char>, (u64, u64)>::empty(),
    {
        RateTracker { entries: Vec::new(), model: Ghost(Map::empty()) }
    }

    /// Position of the entry for `name`, if there is one.
    fn find(&self, name: &String) -> (r: Option<usize>)
        requires
            self.wf(),
        ensures
            match r {
                None => !self@.contains_key(name@),
                Some(i) => i < self.entries@.len() && self.entries@[i as int].name@ == name@,
            },
    {
        let mut i: usize = 0;
        while i < self.entries.len()
            invariant
                self.wf(),
                i <= self.entries@.len(),
                forall|j: int| 0 <= j < i ==> self.entries@[j].name@ != name@,
            decreases self.entries@.len() - i,
        {
            if self.entries[i].name == *name {
                return Some(i);
            }
            i = i + 1;
        }
        None
    }

    /// The counters last seen for `name`.
    pub fn prior(&self, name: &str) -> (r: Option<(u64, u64)>)
        requires
            self.wf(),
        ensures
            r == self@.get(name@),
    {
        let key = String::from_str(name);
        match self.find(&key) {
            None => None,
            Some(i) => Some((self.entries[i].total_received, self.entries[i].total_transmitted)),
        }
    }

    /// Feeds one sample of every interface, in order, and returns their deltas.
    pub fn compute_all(&mut self, samples: &Vec<InterfaceCounters>) -> (r: Vec<(u64, u64)>)
        requires
            old(self).wf(),
        ensures
            final(self).wf(),
            final(self)@ == state_after(old(self)@, samples@.map_values(|c| counters_view(c))),
            r@.len() == samples@.len(),
            forall|i: int|
                0 <= i < samples@.len() ==> r@[i] == delta_at(
                    old(self)@,
                    samples@.map_values(|c| counters_view(c)),
                    i,
                ),
    {
        let ghost start = self@;
        let ghost all = samples@.map_values(|c| counters_view(c));
        let mut r: Vec<(u64, u64)> = Vec::new();
        let mut i: usize = 0;
        while i < samples.len()
            invariant
                self.wf(),
                i <= samples@.len(),
                all == samples@.map_values(|c| counters_view(c)),
                self@ == state_after(start, all.take(i as int)),
                r@.len() == i,
                forall|j: int| 0 <= j < i ==> r@[j] == delta_at(start, all, j),
            decreases samples@.len() - i,
        {
            let c = &samples[i];
            proof {
                assert(all.take(i as int + 1).drop_last() =~= all.take(i as int));
                assert(all.take(i as int + 1).last() == all[i as int]);
            }
            let d = self.compute_rate(c.name.as_str(), c.total_received, c.total_transmitted);
            r.push(d);
            i = i + 1;
        }
        assert(all.take(i as int) =~= all);
        r
    }

    /// Turns the current cumulative counters of an interface into the bytes
    /// moved since the previous sample: zero on first sight, and never below
    /// zero after a counter reset. The current counters become the prior ones.
    pub fn compute_rate(&mut self, name: &str, received: u64, transmitted: u64) -> (r: (u64, u64))
        requires
            old(self).wf(),
        ensures
            final(self).wf(),
            r == delta_of(old(self)@.get(name@), received, transmitted),
            final(self)@ == old(self)@.insert(name@, (received, transmitted)),
    {
        let key = String::from_str(name);
        let ghost m = self.model@;
        match self.find(&key) {
            None => {
                self.entries.push(
                    InterfaceCounters {
                        name: key,
                        total_received: received,
                        total_transmitted: transmitted,
                    },
                );
                self.model = Ghost(m.insert(name@, (received, transmitted)));
                assert forall|k: Seq<char>| #[trigger] self.model@.contains_key(k) implies exists|
                    i: int,
                | 0 <= i < self.entries@.len() && self.entries@[i].name@ == k by {
                    if k != name@ {
                        let i = choose|i: int|
                            0 <= i < old(self).entries@.len() && old(self).entries@[i].name@ == k;
                        assert(self.entries@[i] == old(self).entries@[i]);
                    } else {
                        assert(self.entries@[self.entries@.len() - 1].name@ == k);
                    }
                }
                (0, 0)
            },
            Some(i) => {
                let r0 = self.entries[i].total_received;
                let t0 = self.entries[i].total_transmitted;
                let d = (received.saturating_sub(r0), transmitted.saturating_sub(t0));
                let old_name = self.entries[i].name.clone();
                self.entries.set(
                    i,
                    InterfaceCounters {
                        name: old_name,
                        total_received: received,
                        total_transmitted: transmitted,
                    },
                );
                self.model = Ghost(m.insert(name@, (received, transmitted)));
                assert forall|k: Seq<char>| #[trigger] self.model@.contains_key(k) implies exists|
                    j: int,
                | 0 <= j < self.entries@.len() && self.entries@[j].name@ == k by {
                    if k != name@ {
                        let j = choose|j: int|
                            0 <= j < old(self).entries@.len() && old(self).entries@[j].name@ == k;
                        assert(self.entries@[j] == old(self).entries@[j]);
                    } else {
                        assert(self.entries@[i as int].name@ == k);
                    }
                }
                d
            },
        }
    }
}

/// The tracker's map after feeding it `samples` (name, received, transmitted) in order.
pub open spec fn state_after(seen: Map<Seq<char>, (u64, u64)>, samples: Seq<(Seq<char>, u64, u64)>) -> Map<
    Seq<char>,
    (u64, u64),
>
    decreases samples.len(),
{
    if samples.len() == 0 {
        seen
    } else {
        let (n, r, t) = samples.last();
        state_after(seen, samples.drop_last()).insert(n, (r, t))
    }
}

/// The delta of sample `i` when `samples` are fed in order to a tracker holding `seen`.
pub open spec fn delta_at(seen: Map<Seq<char>, (u64, u64)>, samples: Seq<(Seq<char>, u64, u64)>, i: int) -> (
    u64,
    u64,
) {
    let (n, r, t) = samples[i];
    delta_of(state_after(seen, samples.take(i)).get(n), r, t)
}

/// A sample's name, received and transmitted counters as plain values.
pub open spec fn counters_view(c: InterfaceCounters) -> (Seq<char>, u64, u64) {
    (c.name@, c.total_received, c.total_transmitted)
}

/// On first sight of an interface, whatever its counters, the delta is zero.
pub proof fn lemma_first_sight_is_zero(seen: Map<Seq<char>, (u64, u64)>, name: Seq<char>, rx: u64, tx: u64)
    requires
        !seen.contains_key(name),
    ensures
        delta_of(seen.get(name), rx, tx) == (0u64, 0u64),
{
}

/// With a prior (r0, t0), each delta is the growth of its counter, and a
/// counter that went down (a reset) gives zero, not a wrapped value.
pub proof fn lemma_delta_is_growth(r0: u64, t0: u64, r1: u64, t1: u64)
    ensures
        r1 >= r0 ==> delta_of(Some((r0, t0)), r1, t1).0 == r1 - r0,
        t1 >= t0 ==> delta_of(Some((r0, t0)), r1, t1).1 == t1 - t0,
        r1 < r0 ==> delta_of(Some((r0, t0)), r1, t1).0 == 0,
        t1 < t0 ==> delta_of(Some((r0, t0)), r1, t1).1 == 0,
{
}

/// Feeding the same counters twice in a row: the second delta is zero, as
/// the first call already stored them.
pub proof fn lemma_repeat_is_zero(seen: Map<Seq<char>, (u64, u64)>, name: Seq<char>, rx: u64, tx: u64)
    ensures
        delta_of(seen.insert(name, (rx, tx)).get(name), rx, tx) == (0u64, 0u64),
{
}

} // verus!
