use vstd::prelude::*;
use crate::types::SymbolId;

verus! {

/// The map an entry list stands for (a later entry overrides an earlier one).
pub open spec fn sym_map<V>(s: Seq<(SymbolId, V)>) -> Map<SymbolId, V>
    decreases s.len(),
{
    if s.len() == 0 {
        Map::empty()
    } else {
        sym_map(s.drop_last()).insert(s.last().0, s.last().1)
    }
}

/// No symbol occurs twice in the entry list.
pub open spec fn distinct_syms<V>(s: Seq<(SymbolId, V)>) -> bool {
    forall|i: int, j: int| 0 <= i < j < s.len() ==> s[i].0 != s[j].0
}

pub proof fn lemma_sym_dom<V>(s: Seq<(SymbolId, V)>, k: SymbolId)
    ensures
        sym_map(s).contains_key(k) <==> exists|i: int| 0 <= i < s.len() && s[i].0 == k,
    decreases s.len(),
{
    if s.len() > 0 {
        lemma_sym_dom(s.drop_last(), k);
        if sym_map(s.drop_last()).contains_key(k) {
            let i = choose|i: int| 0 <= i < s.drop_last().len() && s.drop_last()[i].0 == k;
            assert(s[i].0 == k);
        }
        if exists|i: int| 0 <= i < s.len() && s[i].0 == k {
            let i = choose|i: int| 0 <= i < s.len() && s[i].0 == k;
            if i < s.len() - 1 {
                assert(s.drop_last()[i].0 == k);
            }
        }
    }
}

pub proof fn lemma_sym_val<V>(s: Seq<(SymbolId, V)>, i: int)
    requires
        distinct_syms(s),
        0 <= i < s.len(),
    ensures
        sym_map(s).contains_key(s[i].0),
        sym_map(s)[s[i].0] == s[i].1,
    decreases s.len(),
{
    if i < s.len() - 1 {
        lemma_sym_val(s.drop_last(), i);
        assert(s.drop_last()[i] == s[i]);
    }
}

pub proof fn lemma_sym_update<V>(s: Seq<(SymbolId, V)>, i: int, v: V)
    requires
        distinct_syms(s),
        0 <= i < s.len(),
    ensures
        sym_map(s.update(i, (s[i].0, v))) == sym_map(s).insert(s[i].0, v),
        distinct_syms(s.update(i, (s[i].0, v))),
    decreases s.len(),
{
    let t = s.update(i, (s[i].0, v));
    if i == s.len() - 1 {
        assert(t.drop_last() =~= s.drop_last());
    } else {
        assert(t.drop_last() =~= s.drop_last().update(i, (s[i].0, v)));
        lemma_sym_update(s.drop_last(), i, v);
        assert(s.last().0 != s[i].0);
    }
    assert(sym_map(t) =~= sym_map(s).insert(s[i].0, v));
}

pub proof fn lemma_sym_remove<V>(s: Seq<(SymbolId, V)>, i: int)
    requires
        distinct_syms(s),
        0 <= i < s.len(),
    ensures
        sym_map(s.remove(i)) == sym_map(s).remove(s[i].0),
        distinct_syms(s.remove(i)),
    decreases s.len(),
{
    let t = s.remove(i);
    let k = s[i].0;
    if i == s.len() - 1 {
        assert(t =~= s.drop_last());
        lemma_sym_dom(s.drop_last(), k);
        if sym_map(s.drop_last()).contains_key(k) {
            let j = choose|j: int| 0 <= j < s.drop_last().len() && s.drop_last()[j].0 == k;
            assert(s[j].0 == s[i].0);
        }
        assert(sym_map(t) =~= sym_map(s).remove(k));
    } else {
        assert(t.drop_last() =~= s.drop_last().remove(i));
        assert(t.last() == s.last());
        lemma_sym_remove(s.drop_last(), i);
        assert(s.last().0 != k);
        assert(sym_map(t) =~= sym_map(s).remove(k));
    }
    assert forall|a: int, b: int| 0 <= a < b < t.len() implies t[a].0 != t[b].0 by {
        let a2 = if a < i { a } else { a + 1 };
        let b2 = if b < i { b } else { b + 1 };
        assert(t[a] == s[a2]);
        assert(t[b] == s[b2]);
    }
}

pub proof fn lemma_sym_push<V>(s: Seq<(SymbolId, V)>, k: SymbolId, v: V)
    requires
        distinct_syms(s),
        !sym_map(s).contains_key(k),
    ensures
        distinct_syms(s.push((k, v))),
        sym_map(s.push((k, v))) == sym_map(s).insert(k, v),
{
    lemma_sym_dom(s, k);
    let t = s.push((k, v));
    assert(t.drop_last() =~= s);
    assert forall|a: int, b: int| 0 <= a < b < t.len() implies t[a].0 != t[b].0 by {
        assert(t[a] == s[a]);
        if b < s.len() {
            assert(t[b] == s[b]);
        }
    }
}

pub proof fn lemma_sym_len<V>(s: Seq<(SymbolId, V)>)
    requires
        distinct_syms(s),
    ensures
        sym_map(s).len() == s.len(),
        sym_map(s).dom().finite(),
    decreases s.len(),
{
    if s.len() > 0 {
        lemma_sym_len(s.drop_last());
        lemma_sym_dom(s.drop_last(), s.last().0);
        if sym_map(s.drop_last()).contains_key(s.last().0) {
            let i = choose|i: int| 0 <= i < s.drop_last().len() && s.drop_last()[i].0 == s.last().0;
            assert(s[i].0 == s[s.len() - 1].0);
        }
    }
}

/// Index of the entry for `k`, if any.
pub fn find_sym<V>(v: &Vec<(SymbolId, V)>, k: SymbolId) -> (r: Option<usize>)
    ensures
        match r {
            Some(i) => i < v@.len() && v@[i as int].0 == k,
            None => forall|j: int| 0 <= j < v@.len() ==> v@[j].0 != k,
        },
{
    let n = v.len();
    let mut i: usize = 0;
    while i < n
        invariant
            n == v@.len(),
            i <= n,
            forall|j: int| 0 <= j < i ==> v@[j].0 != k,
        decreases n - i,
    {
        if v[i].0 == k {
            return Some(i);
        }
        i = i + 1;
    }
    None
}

/// Map keyed by symbol, kept as a list of distinct symbols in insertion order.
#[derive(Debug)]
pub struct SymMap<V> {
    /// The entries, one per symbol, in insertion order.
    pub entries: Vec<(SymbolId, V)>,
}

impl<V> SymMap<V> {
    pub closed spec fn view(&self) -> Map<SymbolId, V> {
        sym_map(self.entries@)
    }

    pub closed spec fn wf(&self) -> bool {
        distinct_syms(self.entries@)
    }

    pub fn new() -> (r: Self)
        ensures
            r.wf(),
            r@ == Map::<SymbolId, V>::empty(),
    {
        SymMap { entries: Vec::new() }
    }

    pub fn contains_key(&self, k: &SymbolId) -> (r: bool)
        requires
            self.wf(),
        ensures
            r == self@.contains_key(*k),
    {
        proof { lemma_sym_dom(self.entries@, *k); }
        match find_sym(&self.entries, *k) {
            Some(_) => true,
            None => false,
        }
    }

    pub fn get(&self, k: SymbolId) -> (r: Option<&V>)
        requires
            self.wf(),
        ensures
            self@.contains_key(k) ==> r == Some(&self@[k]),
            !self@.contains_key(k) ==> r is None,
    {
        proof { lemma_sym_dom(self.entries@, k); }
        match find_sym(&self.entries, k) {
            Some(i) => {
                proof { lemma_sym_val(self.entries@, i as int); }
                Some(&self.entries[i].1)
            }
            None => None,
        }
    }

    pub fn insert(&mut self, k: SymbolId, v: V)
        requires
            old(self).wf(),
        ensures
            final(self).wf(),
            final(self)@ == old(self)@.insert(k, v),
    {
        proof { lemma_sym_dom(self.entries@, k); }
        match find_sym(&self.entries, k) {
            Some(i) => {
                proof { lemma_sym_update(self.entries@, i as int, v); }
                self.entries.set(i, (k, v));
            }
            None => {
                proof { lemma_sym_push(self.entries@, k, v); }
                self.entries.push((k, v));
            }
        }
    }

    pub fn remove(&mut self, k: &SymbolId) -> (r: Option<V>)
        requires
            old(self).wf(),
        ensures
            final(self).wf(),
            final(self)@ == old(self)@.remove(*k),
            old(self)@.contains_key(*k) ==> r == Some(old(self)@[*k]),
            !old(self)@.contains_key(*k) ==> r is None,
    {
        proof { lemma_sym_dom(self.entries@, *k); }
        match find_sym(&self.entries, *k) {
            Some(i) => {
                proof {
                    lemma_sym_val(self.entries@, i as int);
                    lemma_sym_remove(self.entries@, i as int);
                }
                let (_, v) = self.entries.remove(i);
                Some(v)
            }
            None => {
                assert(old(self)@.remove(*k) =~= old(self)@);
                None
            }
        }
    }

    pub fn len(&self) -> (r: usize)
        requires
            self.wf(),
        ensures
            r == self@.len(),
    {
        proof { lemma_sym_len(self.entries@); }
        self.entries.len()
    }
}


/// Set of symbols.
#[derive(Debug)]
pub struct SymSet {
    members: SymMap<()>,
}

impl SymSet {
    pub closed spec fn view(&self) -> Set<SymbolId> {
        self.members@.dom()
    }

    pub closed spec fn wf(&self) -> bool {
        self.members.wf()
    }

    pub fn new() -> (r: Self)
        ensures
            r.wf(),
            r@ == Set::<SymbolId>::empty(),
    {
        let r = SymSet { members: SymMap::new() };
        assert(r@ =~= Set::<SymbolId>::empty());
        r
    }

    /// Whether `k` is a member.
    pub fn contains(&self, k: &SymbolId) -> (r: bool)
        requires
            self.wf(),
        ensures
            r == self@.contains(*k),
    {
        self.members.contains_key(k)
    }

    /// Adds `k`; true when it was not a member yet.
    pub fn insert(&mut self, k: SymbolId) -> (r: bool)
        requires
            old(self).wf(),
        ensures
            final(self).wf(),
            final(self)@ == old(self)@.insert(k),
            r == !old(self)@.contains(k),
    {
        let fresh = !self.members.contains_key(&k);
        self.members.insert(k, ());
        assert(self@ =~= old(self)@.insert(k));
        fresh
    }

    /// Removes `k`; true when it was a member.
    pub fn remove(&mut self, k: &SymbolId) -> (r: bool)
        requires
            old(self).wf(),
        ensures
            final(self).wf(),
            final(self)@ == old(self)@.remove(*k),
            r == old(self)@.contains(*k),
    {
        let r = self.members.remove(k);
        assert(self@ =~= old(self)@.remove(*k));
        r.is_some()
    }

    /// Number of members.
    pub fn len(&self) -> (r: usize)
        requires
            self.wf(),
        ensures
            r == self@.len(),
    {
        self.members.len()
    }
}

/// The cooldown map after one cycle: every count drops by one (not below zero)
/// and entries that reach zero are dropped.
pub open spec fn counted_down(m: Map<SymbolId, u32>) -> Map<SymbolId, u32> {
    Map::new(|k: SymbolId| m.contains_key(k) && m[k] > 1, |k: SymbolId| (m[k] - 1) as u32)
}

/// The entries of `s` whose count exceeds one, each counted down by one.
pub open spec fn count_down_seq(s: Seq<(SymbolId, u32)>) -> Seq<(SymbolId, u32)>
    decreases s.len(),
{
    if s.len() == 0 {
        Seq::empty()
    } else if s.last().1 > 1 {
        count_down_seq(s.drop_last()).push((s.last().0, (s.last().1 - 1) as u32))
    } else {
        count_down_seq(s.drop_last())
    }
}

proof fn lemma_count_down(s: Seq<(SymbolId, u32)>)
    requires
        distinct_syms(s),
    ensures
        sym_map(count_down_seq(s)) == counted_down(sym_map(s)),
        distinct_syms(count_down_seq(s)),
        forall|k: SymbolId| sym_map(count_down_seq(s)).contains_key(k) ==> sym_map(s).contains_key(k),
    decreases s.len(),
{
    if s.len() > 0 {
        let p = s.drop_last();
        assert(distinct_syms(p));
        lemma_count_down(p);
        lemma_sym_dom(p, s.last().0);
        if sym_map(p).contains_key(s.last().0) {
            let i = choose|i: int| 0 <= i < p.len() && p[i].0 == s.last().0;
            assert(s[i].0 == s[s.len() - 1].0);
        }
        if s.last().1 > 1 {
            lemma_sym_push(count_down_seq(p), s.last().0, (s.last().1 - 1) as u32);
        }
        assert(sym_map(count_down_seq(s)) =~= counted_down(sym_map(s)));
    }
}

impl SymMap<u32> {
    /// One cooldown cycle.
    pub fn count_down(&mut self)
        requires
            old(self).wf(),
        ensures
            final(self).wf(),
            final(self)@ == counted_down(old(self)@),
    {
        let mut kept: Vec<(SymbolId, u32)> = Vec::new();
        let n = self.entries.len();
        let mut i: usize = 0;
        while i < n
            invariant
                n == self.entries@.len(),
                i <= n,
                kept@ == count_down_seq(self.entries@.take(i as int)),
            decreases n - i,
        {
            let (k, v) = self.entries[i];
            assert(self.entries@.take(i + 1).drop_last() =~= self.entries@.take(i as int));
            if v > 1 {
                kept.push((k, v - 1));
            }
            i = i + 1;
        }
        assert(self.entries@.take(n as int) =~= self.entries@);
        proof { lemma_count_down(self.entries@); }
        self.entries = kept;
    }
}


/// The entries of `s` whose value satisfies `keep`, with `f` applied to the value.
pub open spec fn filter_entries<V, W>(s: Seq<(SymbolId, V)>, keep: spec_fn(V) -> bool, f: spec_fn(V) -> W) -> Seq<(SymbolId, W)>
    decreases s.len(),
{
    if s.len() == 0 {
        Seq::empty()
    } else if keep(s.last().1) {
        filter_entries(s.drop_last(), keep, f).push((s.last().0, f(s.last().1)))
    } else {
        filter_entries(s.drop_last(), keep, f)
    }
}

/// The entries of `m` whose value satisfies `keep`, with `f` applied to the value.
pub open spec fn filter_map_values<V, W>(m: Map<SymbolId, V>, keep: spec_fn(V) -> bool, f: spec_fn(V) -> W) -> Map<SymbolId, W> {
    Map::new(|k: SymbolId| m.contains_key(k) && keep(m[k]), |k: SymbolId| f(m[k]))
}

pub proof fn lemma_filter_entries<V, W>(s: Seq<(SymbolId, V)>, keep: spec_fn(V) -> bool, f: spec_fn(V) -> W)
    requires
        distinct_syms(s),
    ensures
        distinct_syms(filter_entries(s, keep, f)),
        sym_map(filter_entries(s, keep, f)) == filter_map_values(sym_map(s), keep, f),
    decreases s.len(),
{
    if s.len() > 0 {
        let p = s.drop_last();
        let k = s.last().0;
        assert(distinct_syms(p));
        lemma_filter_entries(p, keep, f);
        lemma_sym_dom(p, k);
        if sym_map(p).contains_key(k) {
            let i = choose|i: int| 0 <= i < p.len() && p[i].0 == k;
            assert(s[i].0 == s[s.len() - 1].0);
        }
        if keep(s.last().1) {
            lemma_sym_push(filter_entries(p, keep, f), k, f(s.last().1));
        }
        assert(sym_map(filter_entries(s, keep, f)) =~= filter_map_values(sym_map(s), keep, f));
    }
}

pub proof fn lemma_sym_concat<V>(x: Seq<(SymbolId, V)>, y: Seq<(SymbolId, V)>)
    requires
        distinct_syms(x),
        distinct_syms(y),
        forall|k: SymbolId| sym_map(x).contains_key(k) ==> !sym_map(y).contains_key(k),
    ensures
        distinct_syms(x + y),
        sym_map(x + y) == sym_map(x).union_prefer_right(sym_map(y)),
    decreases y.len(),
{
    if y.len() == 0 {
        assert(x + y =~= x);
        assert(sym_map(x).union_prefer_right(sym_map(y)) =~= sym_map(x));
    } else {
        let q = y.drop_last();
        let k = y.last().0;
        assert(distinct_syms(q));
        lemma_sym_dom(q, k);
        if sym_map(q).contains_key(k) {
            let i = choose|i: int| 0 <= i < q.len() && q[i].0 == k;
            assert(y[i].0 == y[y.len() - 1].0);
        }
        assert forall|kk: SymbolId| sym_map(x).contains_key(kk) implies !sym_map(q).contains_key(kk) by {
            if sym_map(q).contains_key(kk) {
                assert(sym_map(y).contains_key(kk));
            }
        }
        lemma_sym_concat(x, q);
        assert((x + y).drop_last() =~= x + q);
        assert(sym_map(y).contains_key(k));
        lemma_sym_dom(x + q, k);
        assert(!sym_map(x + q).contains_key(k));
        lemma_sym_push(x + q, k, y.last().1);
        assert(x + y =~= (x + q).push((k, y.last().1)));
        assert(sym_map(x + y) =~= sym_map(x).union_prefer_right(sym_map(y)));
    }
}


/// Two complementary filters split the entries.
pub proof fn lemma_filter_split<V, W, X>(
    s: Seq<(SymbolId, V)>,
    p: spec_fn(V) -> bool,
    f: spec_fn(V) -> W,
    q: spec_fn(V) -> bool,
    g: spec_fn(V) -> X,
)
    requires
        forall|v: V| #[trigger] p(v) == !q(v),
    ensures
        filter_entries(s, p, f).len() + filter_entries(s, q, g).len() == s.len(),
    decreases s.len(),
{
    if s.len() > 0 {
        lemma_filter_split(s.drop_last(), p, f, q, g);
        assert(p(s.last().1) == !q(s.last().1));
    }
}

} // verus!
