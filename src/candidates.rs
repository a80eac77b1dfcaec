use vstd::prelude::*;

use crate::ticks::{insert_tick, strictly_increasing, tick_added};

verus! {

/// A charge triple: red, blue and vertical charge counts.
pub type Triple = (u32, u32, u32);

/// One charge triple that the analytical solve derived, and the ticks at
/// which it derived it, in the order they were found.
#[derive(Debug, Clone)]
pub struct Candidate {
    pub red: u32,
    pub blue: u32,
    pub vertical: u32,
    pub ticks: Vec<u32>,
}

/// The triple of a candidate.
pub open spec fn triple_of(c: Candidate) -> Triple {
    (c.red, c.blue, c.vertical)
}

/// A candidate as a mathematical value: its triple and its ticks.
pub open spec fn candidate_view(c: Candidate) -> (Triple, Seq<u32>) {
    (triple_of(c), c.ticks@)
}

/// No triple occurs twice.
pub open spec fn distinct_keys(s: Seq<(Triple, Seq<u32>)>) -> bool {
    forall|i: int, j: int| 0 <= i < s.len() && 0 <= j < s.len() && i != j ==> s[i].0 != s[j].0
}

/// Whether `k` occurs as a triple in `s`.
pub open spec fn has_key(s: Seq<(Triple, Seq<u32>)>, k: Triple) -> bool {
    exists|i: int| 0 <= i < s.len() && s[i].0 == k
}

/// `new` is `s` after `tick` is recorded for `k`: added, in order, to the
/// ticks of the entry for `k`, or a new last entry with that one tick.
pub open spec fn recorded(
    s: Seq<(Triple, Seq<u32>)>,
    new: Seq<(Triple, Seq<u32>)>,
    k: Triple,
    tick: u32,
) -> bool {
    if has_key(s, k) {
        let i = choose|i: int| 0 <= i < s.len() && s[i].0 == k;
        &&& new.len() == s.len()
        &&& new[i].0 == k
        &&& tick_added(s[i].1, new[i].1, tick)
        &&& forall|j: int| 0 <= j < s.len() && j != i ==> new[j] == s[j]
    } else {
        new == s.push((k, seq![tick]))
    }
}

/// Every entry's ticks are ascending, each tick once.
pub open spec fn ascending_ticks(s: Seq<(Triple, Seq<u32>)>) -> bool {
    forall|i: int| 0 <= i < s.len() ==> strictly_increasing(#[trigger] s[i].1)
}

/// Whether a vertical count stays within an optional limit.
pub open spec fn within_vertical_limit(vertical: i32, max_vertical: Option<u32>) -> bool {
    match max_vertical {
        Some(m) => vertical <= m,
        None => true,
    }
}

/// The triple that a solve at one tick rounded to, if every count is
/// non-negative, red and blue are at most `max_per_bundle`, and vertical is
/// within `max_vertical`.
pub open spec fn accepted_triple(
    red: i32,
    blue: i32,
    vertical: i32,
    max_per_bundle: u32,
    max_vertical: Option<u32>,
) -> Option<Triple> {
    if red >= 0 && blue >= 0 && vertical >= 0 && red <= max_per_bundle && blue <= max_per_bundle
        && within_vertical_limit(vertical, max_vertical) {
        Some((red as u32, blue as u32, vertical as u32))
    } else {
        None
    }
}

/// The search space that the analytical solve produces: each charge triple
/// with the ticks that could produce it, in the order the triples were first
/// found.
pub struct CandidateMap {
    entries: Vec<Candidate>,
    max_per_bundle: u32,
    max_vertical: Option<u32>,
}

impl View for CandidateMap {
    type V = Seq<(Triple, Seq<u32>)>;

    closed spec fn view(&self) -> Seq<(Triple, Seq<u32>)> {
        self.entries@.map_values(|c: Candidate| candidate_view(c))
    }
}

impl CandidateMap {
    /// Each triple occurs at most once, and its ticks are ascending, each
    /// once.
    pub open spec fn wf(&self) -> bool {
        distinct_keys(self@) && ascending_ticks(self@)
    }

    /// The largest red or blue count that the map takes.
    pub closed spec fn bundle_limit(&self) -> u32 {
        self.max_per_bundle
    }

    /// The largest vertical count that the map takes, if any is set.
    pub closed spec fn vertical_limit(&self) -> Option<u32> {
        self.max_vertical
    }

    /// An empty map that takes red and blue counts up to `max_per_bundle`
    /// and vertical counts up to `max_vertical` (any, when `None`).
    pub fn new(max_per_bundle: u32, max_vertical: Option<u32>) -> (r: CandidateMap)
        ensures
            r@ == Seq::<(Triple, Seq<u32>)>::empty(),
            r.wf(),
            r.bundle_limit() == max_per_bundle,
            r.vertical_limit() == max_vertical,
    {
        let r = CandidateMap { entries: Vec::new(), max_per_bundle, max_vertical };
        assert(r@ =~= Seq::<(Triple, Seq<u32>)>::empty());
        r
    }

    /// The number of distinct triples.
    pub fn len(&self) -> (r: usize)
        ensures
            r == self@.len(),
    {
        self.entries.len()
    }

    /// Records that a solve at `tick` rounded to (`red`, `blue`, `vertical`);
    /// a triple with a negative count is no solution, and one over the map's
    /// limits is out of the search; both are left out.
    pub fn record(&mut self, red: i32, blue: i32, vertical: i32, tick: u32)
        requires
            old(self).wf(),
        ensures
            final(self).wf(),
            final(self).bundle_limit() == old(self).bundle_limit(),
            final(self).vertical_limit() == old(self).vertical_limit(),
            match accepted_triple(
                red,
                blue,
                vertical,
                old(self).bundle_limit(),
                old(self).vertical_limit(),
            ) {
                Some(k) => recorded(old(self)@, final(self)@, k, tick),
                None => final(self)@ == old(self)@,
            },
    {
        if red < 0 || blue < 0 || vertical < 0 {
            return;
        }
        if red as u32 > self.max_per_bundle || blue as u32 > self.max_per_bundle {
            return;
        }
        match self.max_vertical {
            Some(m) => {
                if vertical as u32 > m {
                    return;
                }
            },
            None => {},
        }
        let k: Triple = (red as u32, blue as u32, vertical as u32);
        let ghost s0 = self@;
        let mut i: usize = 0;
        while i < self.entries.len()
            invariant
                self@ == s0,
                s0 == old(self)@,
                self.max_per_bundle == old(self).max_per_bundle,
                self.max_vertical == old(self).max_vertical,
                distinct_keys(s0),
                ascending_ticks(s0),
                accepted_triple(red, blue, vertical, self.max_per_bundle, self.max_vertical)
                    == Some(k),
                red >= 0 && blue >= 0 && vertical >= 0,
                k == (red as u32, blue as u32, vertical as u32),
                i <= self.entries.len(),
                s0.len() == self.entries.len(),
                forall|j: int| 0 <= j < i ==> s0[j].0 != k,
            decreases self.entries.len() - i,
        {
            if self.entries[i].red == k.0 && self.entries[i].blue == k.1 && self.entries[i].vertical
                == k.2 {
                let mut c = self.entries.remove(i);
                proof {
                    assert(c.ticks@ == s0[i as int].1);
                }
                insert_tick(&mut c.ticks, tick);
                self.entries.insert(i, c);
                proof {
                    assert(s0[i as int].0 == k);
                    assert(has_key(s0, k));
                    let ci = choose|ci: int| 0 <= ci < s0.len() && s0[ci].0 == k;
                    assert(ci == i as int);
                    assert(self@.len() == s0.len());
                    assert(self@[i as int] == candidate_view(c));
                    assert forall|j: int| 0 <= j < s0.len() && j != i implies self@[j] == s0[j] by {
                        if j < i {
                            assert(self@[j] == candidate_view(self.entries@[j]));
                        } else {
                            assert(self@[j] == candidate_view(self.entries@[j]));
                        }
                    }
                    assert(recorded(s0, self@, k, tick));
                    assert forall|a: int, b: int|
                        0 <= a < self@.len() && 0 <= b < self@.len() && a != b implies self@[a].0
                        != self@[b].0 by {
                        assert(self@[a].0 == s0[a].0);
                        assert(self@[b].0 == s0[b].0);
                    }
                    assert forall|j: int| 0 <= j < self@.len() implies strictly_increasing(
                        #[trigger] self@[j].1,
                    ) by {
                        if j != i {
                            assert(self@[j] == s0[j]);
                        }
                    }
                }
                return;
            }
            i += 1;
        }
        let mut ticks: Vec<u32> = Vec::new();
        ticks.push(tick);
        self.entries.push(Candidate { red: k.0, blue: k.1, vertical: k.2, ticks });
        proof {
            assert(!has_key(s0, k));
            assert(self@ =~= s0.push((k, seq![tick])));
            assert(strictly_increasing(seq![tick]));
            assert forall|j: int| 0 <= j < self@.len() implies strictly_increasing(
                #[trigger] self@[j].1,
            ) by {
                if j < s0.len() {
                    assert(self@[j] == s0[j]);
                }
            }
        }
    }

    /// The candidates, in the order their triples were first found.
    pub fn into_candidates(self) -> (r: Vec<Candidate>)
        ensures
            r@.map_values(|c: Candidate| candidate_view(c)) == self@,
    {
        self.entries
    }
}

} // verus!
