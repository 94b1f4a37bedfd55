//! Dynamic symbol blocklist. Entries come from a file that is polled for
//! changes, or are added at run time; entries whose expiry date has come are
//! dropped at load. A symbol is blocked while its ticker is registered and
//! has an entry.
use vstd::prelude::*;
use crate::strmap::StrMap;
use crate::types::SymbolId;

verus! {

/// One blocked ticker.
#[derive(Debug, Clone)]
pub struct BlocklistEntry {
    pub symbol: String,
    pub reason: String,
    pub date_added: String,
    /// ISO date `YYYY-MM-DD`; absent for a permanent entry.
    pub expiry: Option<String>,
    pub auto_added: bool,
}

/// `a` sorts before or equal to `b`, character by character (the order of
/// Rust's `<=` on strings).
pub open spec fn text_le(a: Seq<char>, b: Seq<char>) -> bool {
    exists|i: int|
        0 <= i <= a.len() && i <= b.len() && a.take(i) == b.take(i) && (i == a.len() || (i
            < b.len() && (a[i] as u32) < (b[i] as u32)))
}

/// `a <= b` on text.
pub fn str_le(a: &str, b: &str) -> (r: bool)
    ensures
        r == text_le(a@, b@),
{
    let na = a.unicode_len();
    let nb = b.unicode_len();
    let mut i: usize = 0;
    while i < na && i < nb
        invariant
            na == a@.len(),
            nb == b@.len(),
            i <= na,
            i <= nb,
            a@.take(i as int) == b@.take(i as int),
        decreases na - i,
    {
        let ca = a.get_char(i);
        let cb = b.get_char(i);
        if ca != cb {
            let r = (ca as u32) < (cb as u32);
            proof {
                if r {
                    assert(a@.take(i as int) == b@.take(i as int));
                } else {
                    assert forall|j: int|
                        !(0 <= j <= a@.len() && j <= b@.len() && a@.take(j) == b@.take(j) && (j
                            == a@.len() || (j < b@.len() && (a@[j] as u32) < (b@[j] as u32)))) by {
                        if 0 <= j <= a@.len() && j <= b@.len() && a@.take(j) == b@.take(j) {
                            if j < i {
                                assert(a@.take(i as int)[j] == b@.take(i as int)[j]);
                            } else if j > i {
                                assert(a@.take(j)[i as int] == b@.take(j)[i as int]);
                            }
                        }
                    }
                }
            }
            return r;
        }
        proof {
            assert(a@.take(i + 1) =~= a@.take(i as int).push(ca));
            assert(b@.take(i + 1) =~= b@.take(i as int).push(cb));
        }
        i = i + 1;
    }
    let r = na <= nb;
    proof {
        if !r {
            assert forall|j: int|
                !(0 <= j <= a@.len() && j <= b@.len() && a@.take(j) == b@.take(j) && (j == a@.len()
                    || (j < b@.len() && (a@[j] as u32) < (b@[j] as u32)))) by {
                if 0 <= j <= a@.len() && j <= b@.len() && a@.take(j) == b@.take(j) && j < b@.len() {
                    assert(a@.take(i as int)[j] == b@.take(i as int)[j]);
                }
            }
        }
    }
    r
}

/// An entry whose expiry date is on or before `today` has expired.
pub open spec fn expired(e: BlocklistEntry, today: Seq<char>) -> bool {
    e.expiry matches Some(x) && text_le(x@, today)
}

/// The entries a load keeps from a file's list: the unexpired ones, keyed by
/// ticker, a later entry replacing an earlier one for the same ticker.
pub open spec fn active_map(s: Seq<BlocklistEntry>, today: Seq<char>) -> Map<Seq<char>, BlocklistEntry>
    decreases s.len(),
{
    if s.len() == 0 {
        Map::empty()
    } else {
        let m = active_map(s.drop_last(), today);
        if expired(s.last(), today) {
            m
        } else {
            m.insert(s.last().symbol@, s.last())
        }
    }
}

/// The symbols blocked when the tickers `listed` have entries and `ids`
/// maps registered tickers to symbols.
pub open spec fn blocked_set(listed: Set<Seq<char>>, ids: Map<Seq<char>, SymbolId>) -> Set<SymbolId> {
    Set::new(|id: SymbolId| exists|t: Seq<char>| listed.contains(t) && ids.contains_key(t) && ids[t] == id)
}

/// Today's UTC date as `YYYY-MM-DD`.
///
/// Calls `chrono::Utc::now().format("%Y-%m-%d").to_string()`. The value
/// depends on the time of the call, so nothing is stated of it.
#[verifier::external_body]
fn today_utc_string() -> String {
    chrono::Utc::now().format("%Y-%m-%d").to_string()
}

/// The blocklist, the ticker registry and the derived set of blocked symbols.
pub struct Blocklist {
    path: String,
    entries: StrMap<BlocklistEntry>,
    blocked_ids: Vec<SymbolId>,
    ticker_to_id: StrMap<SymbolId>,
    last_loaded_micros: u64,
    reload_interval_secs: u64,
}

/// Microseconds in a second.
pub const MICROS_PER_SEC: u64 = 1_000_000;

impl Blocklist {
    /// Where the list is read from.
    pub closed spec fn source(&self) -> String {
        self.path
    }

    /// Where the list is read from.
    pub fn path(&self) -> (p: &String)
        ensures
            *p == self.source(),
    {
        &self.path
    }

    /// The entries, keyed by ticker.
    pub closed spec fn entries(&self) -> Map<Seq<char>, BlocklistEntry> {
        self.entries.view()
    }

    /// The registered tickers and their symbols.
    pub closed spec fn tickers(&self) -> Map<Seq<char>, SymbolId> {
        self.ticker_to_id.view()
    }

    /// The symbols reported as blocked.
    pub closed spec fn blocked(&self) -> Set<SymbolId> {
        self.blocked_ids@.to_set()
    }

    /// When the list was last loaded, in microseconds since the Unix epoch.
    pub closed spec fn last_loaded(&self) -> u64 {
        self.last_loaded_micros
    }

    /// Seconds between two loads.
    pub closed spec fn reload_interval(&self) -> u64 {
        self.reload_interval_secs
    }

    /// Well-formedness: the two maps are well formed and the blocked set is
    /// derived from them.
    pub closed spec fn wf(&self) -> bool {
        &&& self.entries.wf()
        &&& self.ticker_to_id.wf()
        &&& self.blocked() == blocked_set(self.entries().dom(), self.tickers())
    }

    /// An empty list, read from `path` and reloaded every `reload_secs`
    /// seconds; it has never been loaded, so a load is due at once.
    pub fn new(path: String, reload_secs: u64) -> (bl: Self)
        ensures
            bl.wf(),
            bl.source() == path,
            bl.entries() == Map::<Seq<char>, BlocklistEntry>::empty(),
            bl.tickers() == Map::<Seq<char>, SymbolId>::empty(),
            bl.last_loaded() == 0,
            bl.reload_interval() == reload_secs,
    {
        let bl = Blocklist {
            path,
            entries: StrMap::new(),
            blocked_ids: Vec::new(),
            ticker_to_id: StrMap::new(),
            last_loaded_micros: 0,
            reload_interval_secs: reload_secs,
        };
        assert(bl.blocked() =~= blocked_set(bl.entries().dom(), bl.tickers()));
        bl
    }

    /// Registers the symbol of a ticker.
    pub fn register_symbol(&mut self, ticker: String, id: SymbolId)
        requires
            old(self).wf(),
        ensures
            final(self).wf(),
            final(self).tickers() == old(self).tickers().insert(ticker@, id),
            final(self).entries() == old(self).entries(),
            final(self).source() == old(self).source(),
            final(self).last_loaded() == old(self).last_loaded(),
            final(self).reload_interval() == old(self).reload_interval(),
    {
        self.ticker_to_id.insert(ticker, id);
        self.rebuild_id_set();
    }

    /// Whether `id` is blocked: some ticker registered to it has an entry.
    pub fn is_blocked(&self, id: SymbolId) -> (b: bool)
        requires
            self.wf(),
        ensures
            b == blocked_set(self.entries().dom(), self.tickers()).contains(id),
    {
        let n = self.blocked_ids.len();
        let mut i: usize = 0;
        while i < n
            invariant
                n == self.blocked_ids@.len(),
                i <= n,
                self.wf(),
                forall|j: int| 0 <= j < i ==> self.blocked_ids@[j] != id,
            decreases n - i,
        {
            if self.blocked_ids[i].0 == id.0 {
                proof {
                    assert(self.blocked_ids@[i as int] == id);
                    assert(self.blocked().contains(id));
                }
                return true;
            }
            i = i + 1;
        }
        proof {
            assert(!self.blocked().contains(id));
        }
        false
    }

    /// Whether a reload is due at `now_micros`: the interval has passed since
    /// the last load, or the clock reads before it.
    pub fn reload_if_needed(&self, now_micros: u64) -> (due: bool)
        ensures
            due == (now_micros < self.last_loaded() || (now_micros - self.last_loaded())
                / (MICROS_PER_SEC as int) >= self.reload_interval()),
    {
        if now_micros < self.last_loaded_micros {
            true
        } else {
            (now_micros - self.last_loaded_micros) / MICROS_PER_SEC >= self.reload_interval_secs
        }
    }

    /// Records a load at `now_micros` that found no file: the entries stay.
    pub fn mark_loaded(&mut self, now_micros: u64)
        requires
            old(self).wf(),
        ensures
            final(self).wf(),
            final(self).entries() == old(self).entries(),
            final(self).tickers() == old(self).tickers(),
            final(self).last_loaded() == now_micros,
            final(self).source() == old(self).source(),
            final(self).reload_interval() == old(self).reload_interval(),
    {
        self.last_loaded_micros = now_micros;
    }

    /// Replaces the entries by those of a freshly read file, dropping the ones
    /// expired on `today` (`YYYY-MM-DD`), and records the load at `now_micros`.
    pub fn apply_loaded(&mut self, symbols: Vec<BlocklistEntry>, today: &str, now_micros: u64)
        requires
            old(self).wf(),
        ensures
            final(self).wf(),
            final(self).entries() == active_map(symbols@, today@),
            final(self).tickers() == old(self).tickers(),
            final(self).last_loaded() == now_micros,
            final(self).source() == old(self).source(),
            final(self).reload_interval() == old(self).reload_interval(),
    {
        let ghost all = symbols@;
        let mut rest = symbols;
        let mut active: StrMap<BlocklistEntry> = StrMap::new();
        let ghost mut k: int = 0;
        while rest.len() > 0
            invariant
                0 <= k <= all.len(),
                rest@ == all.skip(k),
                active.wf(),
                active.view() == active_map(all.take(k), today@),
            decreases rest@.len(),
        {
            let e = rest.remove(0);
            proof {
                assert(e == all[k]);
                assert(all.take(k + 1).drop_last() =~= all.take(k));
                assert(all.take(k + 1).last() == e);
            }
            let gone = match &e.expiry {
                Some(x) => str_le(x.as_str(), today),
                None => false,
            };
            if !gone {
                let key = e.symbol.clone();
                active.insert(key, e);
            }
            proof {
                k = k + 1;
                assert(rest@ =~= all.skip(k));
            }
        }
        proof {
            assert(all.take(k) =~= all);
        }
        self.entries = active;
        self.rebuild_id_set();
        self.last_loaded_micros = now_micros;
    }

    /// Adds an entry for `ticker`, stamped with today's UTC date.
    pub fn auto_block(&mut self, ticker: String, reason: String)
        requires
            old(self).wf(),
        ensures
            final(self).wf(),
            final(self).entries().dom() == old(self).entries().dom().insert(ticker@),
            forall|t: Seq<char>| t != ticker@ && old(self).entries().contains_key(t)
                ==> final(self).entries()[t] == old(self).entries()[t],
            final(self).entries()[ticker@].symbol == ticker,
            final(self).entries()[ticker@].reason == reason,
            final(self).entries()[ticker@].expiry is None,
            final(self).entries()[ticker@].auto_added,
            final(self).tickers() == old(self).tickers(),
            final(self).source() == old(self).source(),
            final(self).last_loaded() == old(self).last_loaded(),
            final(self).reload_interval() == old(self).reload_interval(),
    {
        let entry = BlocklistEntry {
            symbol: ticker.clone(),
            reason,
            date_added: today_utc_string(),
            expiry: None,
            auto_added: true,
        };
        self.entries.insert(ticker, entry);
        self.rebuild_id_set();
    }

    /// Recomputes the blocked symbols: those registered to a listed ticker.
    fn rebuild_id_set(&mut self)
        requires
            old(self).entries.wf(),
            old(self).ticker_to_id.wf(),
        ensures
            final(self).wf(),
            final(self).entries == old(self).entries,
            final(self).ticker_to_id == old(self).ticker_to_id,
            final(self).path == old(self).path,
            final(self).last_loaded_micros == old(self).last_loaded_micros,
            final(self).reload_interval_secs == old(self).reload_interval_secs,
    {
        let ghost keys = self.entries.key_seq();
        let ghost ids = self.ticker_to_id.view();
        let n = self.entries.entry_count();
        let mut out: Vec<SymbolId> = Vec::new();
        let mut i: usize = 0;
        while i < n
            invariant
                n == keys.len(),
                i <= n,
                keys == self.entries.key_seq(),
                ids == self.ticker_to_id.view(),
                self.ticker_to_id.wf(),
                forall|id: SymbolId|
                    out@.contains(id) <==> exists|j: int|
                        0 <= j < i && ids.contains_key(#[trigger] keys[j]) && ids[keys[j]] == id,
            decreases n - i,
        {
            let key = self.entries.key_at(i);
            match self.ticker_to_id.get(key) {
                Some(id) => {
                    let ghost before = out@;
                    out.push(id);
                    proof {
                        assert forall|x: SymbolId|
                            out@.contains(x) <==> exists|j: int|
                                0 <= j < i + 1 && ids.contains_key(#[trigger] keys[j]) && ids[keys[j]] == x by {
                            if out@.contains(x) {
                                let p = choose|p: int| 0 <= p < out@.len() && out@[p] == x;
                                if p < before.len() {
                                    assert(before.contains(x));
                                } else {
                                    assert(ids.contains_key(keys[i as int]));
                                }
                            }
                            if exists|j: int| 0 <= j < i + 1 && ids.contains_key(#[trigger] keys[j]) && ids[keys[j]] == x {
                                let j = choose|j: int| 0 <= j < i + 1 && ids.contains_key(#[trigger] keys[j]) && ids[keys[j]] == x;
                                if j < i {
                                    assert(before.contains(x));
                                    let p = choose|p: int| 0 <= p < before.len() && before[p] == x;
                                    assert(out@[p] == x);
                                } else {
                                    assert(out@[before.len() as int] == x);
                                }
                            }
                        }
                    }
                },
                None => {
                    proof {
                        assert forall|x: SymbolId|
                            out@.contains(x) <==> exists|j: int|
                                0 <= j < i + 1 && ids.contains_key(#[trigger] keys[j]) && ids[keys[j]] == x by {
                            if exists|j: int| 0 <= j < i + 1 && ids.contains_key(#[trigger] keys[j]) && ids[keys[j]] == x {
                                let j = choose|j: int| 0 <= j < i + 1 && ids.contains_key(#[trigger] keys[j]) && ids[keys[j]] == x;
                                assert(j < i);
                            }
                        }
                    }
                },
            }
            i = i + 1;
        }
        proof {
            self.entries.lemma_key_seq();
            assert(out@.to_set() =~= blocked_set(self.entries.view().dom(), ids)) by {
                assert forall|x: SymbolId| out@.to_set().contains(x) <==> blocked_set(self.entries.view().dom(), ids).contains(x) by {
                    if out@.contains(x) {
                        let j = choose|j: int| 0 <= j < n && ids.contains_key(#[trigger] keys[j]) && ids[keys[j]] == x;
                        assert(self.entries.key_seq().contains(keys[j]));
                    }
                    if blocked_set(self.entries.view().dom(), ids).contains(x) {
                        let t = choose|t: Seq<char>| self.entries.view().dom().contains(t) && ids.contains_key(t) && ids[t] == x;
                        assert(self.entries.key_seq().contains(t));
                        let j = choose|j: int| 0 <= j < keys.len() && keys[j] == t;
                        assert(ids.contains_key(keys[j]));
                    }
                }
            }
        }
        self.blocked_ids = out;
    }
}

/// A symbol is blocked exactly when a ticker registered to it is listed:
/// listing a registered ticker, or registering a listed one, blocks it.
pub proof fn law_listed_and_registered_blocks(listed: Set<Seq<char>>, ids: Map<Seq<char>, SymbolId>, t: Seq<char>)
    requires
        listed.contains(t),
        ids.contains_key(t),
    ensures
        blocked_set(listed, ids).contains(ids[t]),
        blocked_set(listed.insert(t), ids) == blocked_set(listed, ids),
{
    assert(blocked_set(listed.insert(t), ids) =~= blocked_set(listed, ids));
}

/// A load keeps no expired entry, and each kept entry sits under its own ticker.
pub proof fn law_load_keeps_no_expired(s: Seq<BlocklistEntry>, today: Seq<char>, t: Seq<char>)
    requires
        active_map(s, today).contains_key(t),
    ensures
        !expired(active_map(s, today)[t], today),
        active_map(s, today)[t].symbol@ == t,
    decreases s.len(),
{
    if s.len() > 0 {
        let m = active_map(s.drop_last(), today);
        if expired(s.last(), today) || s.last().symbol@ != t {
            law_load_keeps_no_expired(s.drop_last(), today, t);
        }
    }
}

} // verus!
