//! Exposure limits: one position by default, a second only in a different
//! sector and with a 20-day correlation below 0.5 to the first.
use vstd::prelude::*;
use crate::symmap::SymMap;
use crate::types::{key_le, OrdKey, RejectReason, SymbolId, KEY_HALF, KEY_ONE};

verus! {

/// The key under which the correlation of two symbols is kept: the pair in
/// ascending order of symbol number.
pub open spec fn pair_key(a: SymbolId, b: SymbolId) -> (SymbolId, SymbolId) {
    if a.0 < b.0 {
        (a, b)
    } else {
        (b, a)
    }
}

/// Correlations between symbol pairs, one entry per unordered pair.
pub struct CorrelationMatrix {
    entries: Vec<(SymbolId, SymbolId, OrdKey)>,
}

/// The map an entry list stands for.
pub open spec fn pair_map(s: Seq<(SymbolId, SymbolId, OrdKey)>) -> Map<(SymbolId, SymbolId), OrdKey>
    decreases s.len(),
{
    if s.len() == 0 {
        Map::empty()
    } else {
        pair_map(s.drop_last()).insert((s.last().0, s.last().1), s.last().2)
    }
}

/// No pair occurs twice.
pub open spec fn distinct_pairs(s: Seq<(SymbolId, SymbolId, OrdKey)>) -> bool {
    forall|i: int, j: int| 0 <= i < j < s.len() ==> (s[i].0, s[i].1) != (s[j].0, s[j].1)
}

proof fn lemma_pair_dom(s: Seq<(SymbolId, SymbolId, OrdKey)>, k: (SymbolId, SymbolId))
    ensures
        pair_map(s).contains_key(k) <==> exists|i: int| 0 <= i < s.len() && (s[i].0, s[i].1) == k,
    decreases s.len(),
{
    if s.len() > 0 {
        lemma_pair_dom(s.drop_last(), k);
        if pair_map(s.drop_last()).contains_key(k) {
            let i = choose|i: int| 0 <= i < s.drop_last().len() && (s.drop_last()[i].0, s.drop_last()[i].1) == k;
            assert((s[i].0, s[i].1) == k);
        }
        if exists|i: int| 0 <= i < s.len() && (s[i].0, s[i].1) == k {
            let i = choose|i: int| 0 <= i < s.len() && (s[i].0, s[i].1) == k;
            if i < s.len() - 1 {
                assert((s.drop_last()[i].0, s.drop_last()[i].1) == k);
            }
        }
    }
}

proof fn lemma_pair_val(s: Seq<(SymbolId, SymbolId, OrdKey)>, i: int)
    requires
        distinct_pairs(s),
        0 <= i < s.len(),
    ensures
        pair_map(s).contains_key((s[i].0, s[i].1)),
        pair_map(s)[(s[i].0, s[i].1)] == s[i].2,
    decreases s.len(),
{
    if i < s.len() - 1 {
        lemma_pair_val(s.drop_last(), i);
        assert(s.drop_last()[i] == s[i]);
    }
}

proof fn lemma_pair_update(s: Seq<(SymbolId, SymbolId, OrdKey)>, i: int, v: OrdKey)
    requires
        distinct_pairs(s),
        0 <= i < s.len(),
    ensures
        pair_map(s.update(i, (s[i].0, s[i].1, v))) == pair_map(s).insert((s[i].0, s[i].1), v),
        distinct_pairs(s.update(i, (s[i].0, s[i].1, v))),
    decreases s.len(),
{
    let t = s.update(i, (s[i].0, s[i].1, v));
    if i == s.len() - 1 {
        assert(t.drop_last() =~= s.drop_last());
    } else {
        assert(t.drop_last() =~= s.drop_last().update(i, (s[i].0, s[i].1, v)));
        lemma_pair_update(s.drop_last(), i, v);
    }
    assert(pair_map(t) =~= pair_map(s).insert((s[i].0, s[i].1), v));
}

impl CorrelationMatrix {
    pub closed spec fn view(&self) -> Map<(SymbolId, SymbolId), OrdKey> {
        pair_map(self.entries@)
    }

    pub closed spec fn wf(&self) -> bool {
        distinct_pairs(self.entries@)
    }

    pub fn new() -> (r: Self)
        ensures
            r.wf(),
            r@ == Map::<(SymbolId, SymbolId), OrdKey>::empty(),
    {
        CorrelationMatrix { entries: Vec::new() }
    }

    fn position(&self, a: SymbolId, b: SymbolId) -> (r: Option<usize>)
        requires
            self.wf(),
        ensures
            r is None <==> !self@.contains_key((a, b)),
            r matches Some(i) ==> i < self.entries@.len() && self.entries@[i as int].0 == a
                && self.entries@[i as int].1 == b && self@[(a, b)] == self.entries@[i as int].2,
    {
        let n = self.entries.len();
        let mut i: usize = 0;
        while i < n
            invariant
                n == self.entries@.len(),
                i <= n,
                distinct_pairs(self.entries@),
                forall|j: int| 0 <= j < i ==> (self.entries@[j].0, self.entries@[j].1) != (a, b),
            decreases n - i,
        {
            if self.entries[i].0.0 == a.0 && self.entries[i].1.0 == b.0 {
                proof {
                    lemma_pair_val(self.entries@, i as int);
                }
                return Some(i);
            }
            i = i + 1;
        }
        proof {
            lemma_pair_dom(self.entries@, (a, b));
        }
        None
    }

    /// The value kept for the ordered pair `(a, b)`, if any.
    pub fn get(&self, a: SymbolId, b: SymbolId) -> (r: Option<OrdKey>)
        requires
            self.wf(),
        ensures
            r == (if self@.contains_key((a, b)) { Some(self@[(a, b)]) } else { None }),
    {
        match self.position(a, b) {
            Some(i) => Some(self.entries[i].2),
            None => None,
        }
    }

    /// Keeps `v` for the ordered pair `(a, b)`, replacing an earlier value.
    pub fn insert(&mut self, a: SymbolId, b: SymbolId, v: OrdKey)
        requires
            old(self).wf(),
        ensures
            final(self).wf(),
            final(self)@ == old(self)@.insert((a, b), v),
    {
        match self.position(a, b) {
            Some(i) => {
                proof {
                    lemma_pair_update(self.entries@, i as int, v);
                }
                self.entries.set(i, (a, b, v));
            },
            None => {
                proof {
                    lemma_pair_dom(self.entries@, (a, b));
                    let s = self.entries@;
                    assert(s.push((a, b, v)).drop_last() =~= s);
                    assert forall|x: int, y: int| 0 <= x < y < s.push((a, b, v)).len() implies
                        (s.push((a, b, v))[x].0, s.push((a, b, v))[x].1) != (s.push((a, b, v))[y].0, s.push((a, b, v))[y].1) by {
                        assert(s.push((a, b, v))[x] == s[x]);
                        if y < s.len() {
                            assert(s.push((a, b, v))[y] == s[y]);
                        }
                    }
                }
                self.entries.push((a, b, v));
            },
        }
    }
}

/// Verdict on opening `new_symbol` next to `open` positions.
pub open spec fn exposure_verdict(
    sectors: Map<SymbolId, String>,
    correlations: Map<(SymbolId, SymbolId), OrdKey>,
    new_symbol: SymbolId,
    open: Seq<SymbolId>,
) -> Result<(), RejectReason> {
    if open.len() == 0 {
        Ok(())
    } else if open.len() >= 2 {
        Err(RejectReason::Exposure)
    } else {
        let existing = open[0];
        if !sectors.contains_key(new_symbol) || !sectors.contains_key(existing) || sectors[new_symbol]@
            == sectors[existing]@ {
            Err(RejectReason::Exposure)
        } else {
            let k = pair_key(new_symbol, existing);
            let corr = if correlations.contains_key(k) {
                correlations[k]
            } else {
                OrdKey(KEY_ONE)
            };
            if key_le(OrdKey(KEY_HALF), corr) {
                Err(RejectReason::Exposure)
            } else {
                Ok(())
            }
        }
    }
}

/// Correlations and sectors that decide whether a second position may open.
pub struct ExposureValidator {
    /// Correlation coefficient of each symbol pair, keyed by [`pair_key`].
    pub correlation_matrix: CorrelationMatrix,
    /// Sector of each symbol.
    pub sector_map: SymMap<String>,
}

impl ExposureValidator {
    pub open spec fn wf(&self) -> bool {
        self.correlation_matrix.wf() && self.sector_map.wf()
    }

    pub fn new() -> (r: Self)
        ensures
            r.wf(),
            r.correlation_matrix@ == Map::<(SymbolId, SymbolId), OrdKey>::empty(),
            r.sector_map@ == Map::<SymbolId, String>::empty(),
    {
        ExposureValidator { correlation_matrix: CorrelationMatrix::new(), sector_map: SymMap::new() }
    }

    /// Records the correlation of `a` and `b`, in either order.
    pub fn set_correlation(&mut self, a: SymbolId, b: SymbolId, corr: OrdKey)
        requires
            old(self).wf(),
        ensures
            final(self).wf(),
            final(self).correlation_matrix@ == old(self).correlation_matrix@.insert(pair_key(a, b), corr),
            final(self).sector_map@ == old(self).sector_map@,
    {
        if a.0 < b.0 {
            self.correlation_matrix.insert(a, b, corr);
        } else {
            self.correlation_matrix.insert(b, a, corr);
        }
    }

    /// Records the sector of a symbol.
    pub fn set_sector(&mut self, symbol: SymbolId, sector: String)
        requires
            old(self).wf(),
        ensures
            final(self).wf(),
            final(self).sector_map@ == old(self).sector_map@.insert(symbol, sector),
            final(self).correlation_matrix@ == old(self).correlation_matrix@,
    {
        self.sector_map.insert(symbol, sector);
    }

    /// Whether a position in `new_symbol` may open next to `open_positions`:
    /// always with none open, never with two or more, and next to one only
    /// when both sectors are known and differ and their known correlation is
    /// below 0.5 (an unknown correlation counts as 1).
    pub fn check_new_position(&self, new_symbol: SymbolId, open_positions: &[SymbolId]) -> (r: Result<(), RejectReason>)
        requires
            self.wf(),
        ensures
            r == exposure_verdict(self.sector_map@, self.correlation_matrix@, new_symbol, open_positions@),
    {
        let count = open_positions.len();
        if count == 0 {
            return Ok(());
        }
        if count >= 2 {
            return Err(RejectReason::Exposure);
        }
        let existing = open_positions[0];
        let sector_new = self.sector_map.get(new_symbol);
        let sector_existing = self.sector_map.get(existing);
        match (sector_new, sector_existing) {
            (Some(s1), Some(s2)) => {
                if *s1 == *s2 {
                    return Err(RejectReason::Exposure);
                }
            },
            _ => {
                return Err(RejectReason::Exposure);
            },
        }
        let stored = if new_symbol.0 < existing.0 {
            self.correlation_matrix.get(new_symbol, existing)
        } else {
            self.correlation_matrix.get(existing, new_symbol)
        };
        let corr = match stored {
            Some(c) => c,
            None => OrdKey(KEY_ONE),
        };
        if corr.ge(OrdKey(KEY_HALF)) {
            return Err(RejectReason::Exposure);
        }
        Ok(())
    }
}

/// No third position ever opens, and a second one opens only in another
/// sector with a recorded correlation below 0.5.
pub proof fn law_exposure_limits(
    sectors: Map<SymbolId, String>,
    correlations: Map<(SymbolId, SymbolId), OrdKey>,
    new_symbol: SymbolId,
    open: Seq<SymbolId>,
)
    ensures
        exposure_verdict(sectors, correlations, new_symbol, open) is Ok ==> open.len() <= 1,
        exposure_verdict(sectors, correlations, new_symbol, open) is Ok && open.len() == 1 ==> {
            &&& sectors.contains_key(new_symbol)
            &&& sectors.contains_key(open[0])
            &&& sectors[new_symbol]@ != sectors[open[0]]@
            &&& correlations.contains_key(pair_key(new_symbol, open[0]))
            &&& !key_le(OrdKey(KEY_HALF), correlations[pair_key(new_symbol, open[0])])
        },
        exposure_verdict(sectors, correlations, new_symbol, open) is Err ==> exposure_verdict(
            sectors,
            correlations,
            new_symbol,
            open,
        ) == Err::<(), RejectReason>(RejectReason::Exposure),
{
}

} // verus!
