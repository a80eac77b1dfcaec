use vstd::prelude::*;

verus! {

/// A tick at which a simulated flight met the distance threshold.
///
/// `distance_bits` is the IEEE-754 bit pattern of the hit's non-negative
/// horizontal distance to the destination: for non-negative doubles the
/// patterns, read as unsigned integers, are ordered as the values are.
#[derive(Debug, Clone, Copy, PartialEq, Eq, Structural)]
pub struct Hit {
    pub tick: u32,
    pub distance_bits: u64,
}

/// Whether an offered hit or result takes the place of the kept one. `near`
/// says whether their two distances lie within the tie band (1e-10 apart),
/// which only floating-point arithmetic can tell: within it the earlier tick
/// wins, outside it the smaller distance.
pub open spec fn supersedes(
    new_tick: u32,
    new_bits: u64,
    kept_tick: u32,
    kept_bits: u64,
    near: bool,
) -> bool {
    if near {
        new_tick < kept_tick
    } else {
        new_bits < kept_bits
    }
}

/// Whether `hit` takes the place of `kept`; see `supersedes`.
pub open spec fn hit_supersedes(hit: Hit, kept: Hit, near: bool) -> bool {
    supersedes(hit.tick, hit.distance_bits, kept.tick, kept.distance_bits, near)
}

/// The hit kept after `hit` is offered, with `near` for it and the hit kept
/// before.
pub open spec fn offered_hit(kept: Option<Hit>, hit: Hit, near: bool) -> Option<Hit> {
    match kept {
        None => Some(hit),
        Some(k) => if hit_supersedes(hit, k, near) {
            Some(hit)
        } else {
            Some(k)
        },
    }
}

/// The best hit of one charge triple, chosen as the hits are offered one at
/// a time.
pub struct BestHit {
    kept: Option<Hit>,
}

impl View for BestHit {
    type V = Option<Hit>;

    closed spec fn view(&self) -> Option<Hit> {
        self.kept
    }
}

impl BestHit {
    /// Nothing kept yet.
    pub fn new() -> (r: BestHit)
        ensures
            r@ == None::<Hit>,
    {
        BestHit { kept: None }
    }

    /// The hit kept so far, against which the next one is measured.
    pub fn kept(&self) -> (r: Option<Hit>)
        ensures
            r == self@,
    {
        self.kept
    }

    /// Offers a hit; `near` tells whether its distance lies within the tie
    /// band of the kept hit's (ignored while none is kept).
    pub fn offer(&mut self, hit: Hit, near: bool)
        ensures
            final(self)@ == offered_hit(old(self)@, hit, near),
    {
        match self.kept {
            None => {
                self.kept = Some(hit);
            },
            Some(k) => {
                let wins = if near {
                    hit.tick < k.tick
                } else {
                    hit.distance_bits < k.distance_bits
                };
                if wins {
                    self.kept = Some(hit);
                }
            },
        }
    }
}

/// A hit offered after the kept one, outside its tie band and strictly
/// closer, replaces it: of two ticks of one triple, the strictly closer
/// later one survives.
pub proof fn lemma_closer_hit_replaces(kept: Hit, hit: Hit)
    requires
        hit.distance_bits < kept.distance_bits,
    ensures
        offered_hit(Some(kept), hit, false) == Some(hit),
{
}

/// A hit within the tie band of the kept one, at a later tick, leaves the
/// kept one in place.
pub proof fn lemma_tie_keeps_earlier_tick(kept: Hit, hit: Hit)
    requires
        kept.tick < hit.tick,
    ensures
        offered_hit(Some(kept), hit, true) == Some(kept),
{
}

/// After any offer, the offered hit never supersedes the one kept.
pub proof fn lemma_offered_never_preferred(kept: Option<Hit>, hit: Hit, near: bool)
    ensures
        offered_hit(kept, hit, near) matches Some(k) && !hit_supersedes(hit, k, near),
{
}

/// The ranking data of one verified candidate: its charge triple, the tick
/// of its best hit, and that hit's distance as in `Hit`.
#[derive(Debug, Clone, Copy, PartialEq, Eq, Structural)]
pub struct ResultKey {
    pub red: u32,
    pub blue: u32,
    pub vertical: u32,
    pub tick: u32,
    pub distance_bits: u64,
}

/// The charge triple of a result.
pub open spec fn result_triple(r: ResultKey) -> (u32, u32, u32) {
    (r.red, r.blue, r.vertical)
}

/// Whether `r` takes the place of `kept`; see `supersedes`.
pub open spec fn result_supersedes(r: ResultKey, kept: ResultKey, near: bool) -> bool {
    supersedes(r.tick, r.distance_bits, kept.tick, kept.distance_bits, near)
}

/// A kept result with the caller's index for it.
pub type Ranked = (ResultKey, usize);

/// No triple occurs twice.
pub open spec fn distinct_triples(s: Seq<Ranked>) -> bool {
    forall|i: int, j: int|
        0 <= i < s.len() && 0 <= j < s.len() && i != j ==> result_triple(s[i].0)
            != result_triple(s[j].0)
}

/// The position of the entry for triple `t`, if there is one.
pub open spec fn entry_of(s: Seq<Ranked>, t: (u32, u32, u32)) -> Option<int> {
    if exists|i: int| 0 <= i < s.len() && result_triple(s[i].0) == t {
        Some(choose|i: int| 0 <= i < s.len() && result_triple(s[i].0) == t)
    } else {
        None
    }
}

/// The entries after `r` (the caller's result `index`) is offered, with
/// `near` for it and the result kept for its triple: it starts a new last
/// entry, replaces the kept one when it supersedes it, or is dropped.
pub open spec fn offered_result(s: Seq<Ranked>, r: ResultKey, index: usize, near: bool) -> Seq<
    Ranked,
> {
    match entry_of(s, result_triple(r)) {
        None => s.push((r, index)),
        Some(i) => if result_supersedes(r, s[i].0, near) {
            s.update(i, (r, index))
        } else {
            s
        },
    }
}

/// The distances of `s` never decrease.
pub open spec fn ascending_distance(s: Seq<Ranked>) -> bool {
    forall|p: int, q: int| 0 <= p < q < s.len() ==> s[p].0.distance_bits <= s[q].0.distance_bits
}

/// One result per charge triple, the best of that triple, chosen as the
/// results are offered one at a time.
pub struct RankedResults {
    kept: Vec<Ranked>,
}

impl View for RankedResults {
    type V = Seq<Ranked>;

    closed spec fn view(&self) -> Seq<Ranked> {
        self.kept@
    }
}

impl RankedResults {
    /// Each triple occurs at most once.
    pub open spec fn wf(&self) -> bool {
        distinct_triples(self@)
    }

    /// Nothing kept yet.
    pub fn new() -> (r: RankedResults)
        ensures
            r@ == Seq::<Ranked>::empty(),
            r.wf(),
    {
        RankedResults { kept: Vec::new() }
    }

    /// Where the entry for the triple of `r` stands, if any.
    fn find(&self, r: &ResultKey) -> (p: Option<usize>)
        requires
            self.wf(),
        ensures
            p matches Some(i) ==> entry_of(self@, result_triple(*r)) == Some(i as int),
            p is None ==> entry_of(self@, result_triple(*r)) is None,
    {
        let mut i: usize = 0;
        while i < self.kept.len()
            invariant
                i <= self@.len(),
                distinct_triples(self@),
                forall|j: int| 0 <= j < i ==> result_triple(self@[j].0) != result_triple(*r),
            decreases self.kept.len() - i,
        {
            let k = self.kept[i].0;
            if k.red == r.red && k.blue == r.blue && k.vertical == r.vertical {
                proof {
                    let c = choose|c: int|
                        0 <= c < self@.len() && result_triple(self@[c].0) == result_triple(*r);
                    assert(result_triple(self@[i as int].0) == result_triple(*r));
                    assert(c == i as int);
                }
                return Some(i);
            }
            i += 1;
        }
        None
    }

    /// The result kept for the triple of `r`, against which `r` is measured.
    pub fn kept_for(&self, r: &ResultKey) -> (k: Option<ResultKey>)
        requires
            self.wf(),
        ensures
            k == match entry_of(self@, result_triple(*r)) {
                Some(i) => Some(self@[i].0),
                None => None,
            },
    {
        match self.find(r) {
            Some(i) => Some(self.kept[i].0),
            None => None,
        }
    }

    /// Offers the caller's result `index`; `near` tells whether its distance
    /// lies within the tie band of the result kept for its triple (ignored
    /// while none is kept).
    pub fn offer(&mut self, r: ResultKey, index: usize, near: bool)
        requires
            old(self).wf(),
        ensures
            final(self).wf(),
            final(self)@ == offered_result(old(self)@, r, index, near),
    {
        let ghost s0 = self@;
        match self.find(&r) {
            None => {
                self.kept.push((r, index));
                proof {
                    assert forall|a: int, b: int|
                        0 <= a < self@.len() && 0 <= b < self@.len() && a != b
                        implies result_triple(self@[a].0) != result_triple(self@[b].0) by {
                        if a < s0.len() && b < s0.len() {
                            assert(self@[a] == s0[a] && self@[b] == s0[b]);
                        } else if a < s0.len() {
                            assert(self@[a] == s0[a]);
                        } else {
                            assert(self@[b] == s0[b]);
                        }
                    }
                }
            },
            Some(i) => {
                let k = self.kept[i].0;
                let wins = if near {
                    r.tick < k.tick
                } else {
                    r.distance_bits < k.distance_bits
                };
                if wins {
                    self.kept.set(i, (r, index));
                    proof {
                        assert forall|a: int, b: int|
                            0 <= a < self@.len() && 0 <= b < self@.len() && a != b
                            implies result_triple(self@[a].0) != result_triple(self@[b].0) by {
                            assert(result_triple(self@[a].0) == result_triple(s0[a].0));
                            assert(result_triple(self@[b].0) == result_triple(s0[b].0));
                        }
                    }
                }
            },
        }
    }

    /// The kept results in ascending order of distance; of equally distant
    /// ones, the one kept first stays first.
    pub fn into_ranked(self) -> (r: Vec<Ranked>)
        requires
            self.wf(),
        ensures
            r@.len() == self@.len(),
            forall|p: int| 0 <= p < r@.len() ==> self@.contains(#[trigger] r@[p]),
            forall|q: int| 0 <= q < self@.len() ==> r@.contains(#[trigger] self@[q]),
            distinct_triples(r@),
            ascending_distance(r@),
    {
        let entries = self.kept;
        let mut out: Vec<Ranked> = Vec::new();
        let mut m: usize = 0;
        while m < entries.len()
            invariant
                m <= entries@.len(),
                entries@ == self@,
                distinct_triples(entries@),
                out@.len() == m,
                forall|p: int|
                    0 <= p < out@.len() ==> exists|q: int|
                        0 <= q < m && entries@[q] == #[trigger] out@[p],
                forall|q: int| 0 <= q < m ==> out@.contains(#[trigger] entries@[q]),
                distinct_triples(out@),
                ascending_distance(out@),
            decreases entries.len() - m,
        {
            let c = entries[m];
            let d = c.0.distance_bits;
            let mut q: usize = 0;
            while q < out.len() && out[q].0.distance_bits <= d
                invariant
                    q <= out@.len(),
                    forall|j: int| 0 <= j < q ==> (#[trigger] out@[j]).0.distance_bits <= d,
                decreases out.len() - q,
            {
                q += 1;
            }
            let ghost before = out@;
            out.insert(q, c);
            proof {
                before.insert_ensures(q as int, c);
                assert(out@ == before.insert(q as int, c));
                assert forall|p: int| 0 <= p < out@.len() implies exists|j: int|
                    0 <= j < m + 1 && entries@[j] == #[trigger] out@[p] by {
                    if p == q {
                        assert(entries@[m as int] == out@[p]);
                    } else {
                        let p0 = if p < q { p } else { p - 1 };
                        assert(out@[p] == before[p0]);
                        let j = choose|j: int| 0 <= j < m && entries@[j] == before[p0];
                    }
                }
                assert forall|p: int| 0 <= p < out@.len() && p != q implies result_triple(
                    (#[trigger] out@[p]).0,
                ) != result_triple(c.0) by {
                    let p0 = if p < q { p } else { p - 1 };
                    assert(out@[p] == before[p0]);
                    let j = choose|j: int| 0 <= j < m && entries@[j] == before[p0];
                    assert(j != m as int);
                }
                assert forall|a: int, b: int|
                    0 <= a < out@.len() && 0 <= b < out@.len() && a != b implies result_triple(
                        out@[a].0,
                    ) != result_triple(out@[b].0) by {
                    if a != q && b != q {
                        let a0 = if a < q { a } else { a - 1 };
                        let b0 = if b < q { b } else { b - 1 };
                        assert(out@[a] == before[a0]);
                        assert(out@[b] == before[b0]);
                    } else if a == q {
                        assert(result_triple(out@[b].0) != result_triple(c.0));
                    } else {
                        assert(result_triple(out@[a].0) != result_triple(c.0));
                    }
                }
                assert forall|j: int| 0 <= j < m + 1 implies out@.contains(
                    #[trigger] entries@[j],
                ) by {
                    if j < m {
                        let p = choose|p: int| 0 <= p < before.len() && before[p] == entries@[j];
                        if p < q {
                            assert(out@[p] == entries@[j]);
                        } else {
                            assert(out@[p + 1] == entries@[j]);
                        }
                    } else {
                        assert(out@[q as int] == entries@[j]);
                    }
                }
                assert forall|a: int, b: int|
                    0 <= a < b < out@.len() implies out@[a].0.distance_bits
                    <= out@[b].0.distance_bits by {
                    if b < q {
                        assert(out@[a] == before[a] && out@[b] == before[b]);
                    } else if b == q {
                        assert(out@[a] == before[a]);
                    } else if a < q {
                        assert(out@[a] == before[a] && out@[b] == before[b - 1]);
                        assert(before[q as int].0.distance_bits > d);
                    } else if a == q {
                        assert(out@[b] == before[b - 1]);
                        assert(before[q as int].0.distance_bits > d);
                    } else {
                        assert(out@[a] == before[a - 1] && out@[b] == before[b - 1]);
                    }
                }
            }
            m += 1;
        }
        proof {
            assert forall|p: int|
                0 <= p < out@.len() implies self@.contains(#[trigger] out@[p]) by {
                let j = choose|j: int| 0 <= j < m && entries@[j] == out@[p];
            }
        }
        out
    }
}

} // verus!
