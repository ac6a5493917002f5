//! The shared store: a table mapping symbol to its latest candle series,
//! the current symbol universe, and the two freshness timestamps.
//!
//! The store is a plain aggregate; its abstract view is a mathematical map
//! from symbol (as a character sequence) to an entry model, plus the universe
//! and the timestamps.  Readers receive owned copies — a returned snapshot is
//! a value of its own and no later write can reach it — which is how the
//! concurrency discipline's snapshot consistency shows up at this level.
//! The unverified shell serializes writers behind a lock; every critical
//! section is one call into this module and only copies data in or out.

use crate::types::{CacheEntry, Candle};
use vstd::prelude::*;

verus! {

/// Mathematical content of one cache entry: the symbol it is keyed under,
/// the candle series, and the millisecond epoch of its last write.
pub struct EntryModel {
    pub symbol: Seq<char>,
    pub candles: Seq<Candle>,
    pub last_update: i64,
}

/// Mathematical content of one entry.
pub open spec fn entry_model(e: CacheEntry) -> EntryModel {
    EntryModel { symbol: e.symbol@, candles: e.candles@, last_update: e.last_update }
}

/// The map induced by a sequence of entries, keyed by each entry's symbol.
/// A later entry with the same symbol would shadow an earlier one; the store
/// keeps symbols unique, so no shadowing occurs in a well-formed store.
pub open spec fn entries_map(s: Seq<CacheEntry>) -> Map<Seq<char>, EntryModel>
    decreases s.len(),
{
    if s.len() == 0 {
        Map::empty()
    } else {
        entries_map(s.drop_last()).insert(s.last().symbol@, entry_model(s.last()))
    }
}

/// No two entries share a symbol.
pub open spec fn unique_symbols(s: Seq<CacheEntry>) -> bool {
    forall|i: int, j: int| 0 <= i < j < s.len() ==> s[i].symbol@ != s[j].symbol@
}

/// Abstract state of the store: the candle table, the symbol universe as of
/// the most recent publish, and the two freshness timestamps, each `None`
/// until the first respective write.
pub struct StoreView {
    pub candles: Map<Seq<char>, EntryModel>,
    pub symbols: Seq<String>,
    pub last_update: Option<i64>,
    pub symbol_update: Option<i64>,
}

/// The shared store.  Candle entries are created or overwritten only by the
/// refresh cycle; the universe is replaced only by discovery; readers never
/// create or destroy entries.
#[derive(Debug)]
pub struct Cache {
    entries: Vec<CacheEntry>,
    symbols: Vec<String>,
    last_update: Option<i64>,
    symbol_update: Option<i64>,
}

impl View for Cache {
    type V = StoreView;

    closed spec fn view(&self) -> StoreView {
        StoreView {
            candles: entries_map(self.entries@),
            symbols: self.symbols@,
            last_update: self.last_update,
            symbol_update: self.symbol_update,
        }
    }
}

proof fn lemma_entries_map_contains(s: Seq<CacheEntry>, k: Seq<char>)
    ensures
        entries_map(s).contains_key(k) <==> (exists|i: int|
            0 <= i < s.len() && s[i].symbol@ == k),
    decreases s.len(),
{
    if s.len() > 0 {
        lemma_entries_map_contains(s.drop_last(), k);
        assert(forall|i: int| 0 <= i < s.len() - 1 ==> s.drop_last()[i] == s[i]);
        if entries_map(s).contains_key(k) {
            if k == s.last().symbol@ {
                assert(s[s.len() - 1].symbol@ == k);
            } else {
                let i = choose|i: int| 0 <= i < s.drop_last().len() && s.drop_last()[i].symbol@
                    == k;
                assert(s[i].symbol@ == k);
            }
        } else {
            assert forall|i: int| 0 <= i < s.len() implies s[i].symbol@ != k by {
                if i < s.len() - 1 {
                    assert(s.drop_last()[i] == s[i]);
                }
            }
        }
    }
}

proof fn lemma_entries_map_index(s: Seq<CacheEntry>, i: int)
    requires
        unique_symbols(s),
        0 <= i < s.len(),
    ensures
        entries_map(s).contains_key(s[i].symbol@),
        entries_map(s)[s[i].symbol@] == entry_model(s[i]),
    decreases s.len(),
{
    if i == s.len() - 1 {
        assert(s.last() == s[i]);
    } else {
        assert(forall|j: int| 0 <= j < s.len() - 1 ==> s.drop_last()[j] == s[j]);
        lemma_entries_map_index(s.drop_last(), i);
        assert(s[i].symbol@ != s.last().symbol@);
    }
}

proof fn lemma_entries_map_push(s: Seq<CacheEntry>, e: CacheEntry)
    ensures
        entries_map(s.push(e)) == entries_map(s).insert(e.symbol@, entry_model(e)),
{
    assert(s.push(e).drop_last() =~= s);
    assert(s.push(e).last() == e);
}

proof fn lemma_entries_map_update(s: Seq<CacheEntry>, i: int, e: CacheEntry)
    requires
        unique_symbols(s),
        0 <= i < s.len(),
        e.symbol@ == s[i].symbol@,
    ensures
        entries_map(s.update(i, e)) == entries_map(s).insert(e.symbol@, entry_model(e)),
    decreases s.len(),
{
    let t = s.update(i, e);
    if i == s.len() - 1 {
        assert(t.drop_last() =~= s.drop_last());
        assert(t.last() == e);
        assert(entries_map(s.drop_last()).insert(e.symbol@, entry_model(e)) =~= entries_map(
            s.drop_last(),
        ).insert(s[i].symbol@, entry_model(s[i])).insert(e.symbol@, entry_model(e)));
    } else {
        assert(forall|j: int| 0 <= j < s.len() - 1 ==> s.drop_last()[j] == s[j]);
        assert(t.drop_last() =~= s.drop_last().update(i, e));
        assert(t.last() == s.last());
        lemma_entries_map_update(s.drop_last(), i, e);
        assert(e.symbol@ != s.last().symbol@);
        assert(entries_map(s.drop_last()).insert(e.symbol@, entry_model(e)).insert(
            s.last().symbol@,
            entry_model(s.last()),
        ) =~= entries_map(s.drop_last()).insert(s.last().symbol@, entry_model(s.last())).insert(
            e.symbol@,
            entry_model(e),
        ));
    }
}

impl Cache {
    /// Well-formedness: entry symbols are pairwise distinct, so the entry
    /// sequence and the induced map carry the same information.
    pub closed spec fn wf(self) -> bool {
        unique_symbols(self.entries@)
    }

    /// Creates the store empty: no entries, no universe, no timestamps.
    pub fn new() -> (c: Cache)
        ensures
            c.wf(),
            c@.candles == Map::<Seq<char>, EntryModel>::empty(),
            c@.symbols == Seq::<String>::empty(),
            c@.last_update is None,
            c@.symbol_update is None,
    {
        Cache { entries: Vec::new(), symbols: Vec::new(), last_update: None, symbol_update: None }
    }

    /// Index of the entry stored under `symbol`, if any.
    fn find_entry(&self, symbol: &String) -> (r: Option<usize>)
        ensures
            match r {
                Some(i) => i < self.entries@.len() && self.entries@[i as int].symbol@ == symbol@,
                None => forall|j: int|
                    0 <= j < self.entries@.len() ==> self.entries@[j].symbol@ != symbol@,
            },
    {
        let n = self.entries.len();
        let mut i: usize = 0;
        while i < n
            invariant
                n == self.entries@.len(),
                i <= n,
                forall|j: int| 0 <= j < i ==> self.entries@[j].symbol@ != symbol@,
            decreases n - i,
        {
            if self.entries[i].symbol == *symbol {
                return Some(i);
            }
            i += 1;
        }
        None
    }

    /// Upserts the entry for `symbol` with the given candles, stamps the
    /// entry with `now` and advances the global last-candle-update timestamp
    /// to `now`.  The universe and its timestamp are untouched.
    pub fn set(&mut self, symbol: String, candles: Vec<Candle>, now: i64)
        requires
            old(self).wf(),
        ensures
            final(self).wf(),
            final(self)@.candles == old(self)@.candles.insert(
                symbol@,
                EntryModel { symbol: symbol@, candles: candles@, last_update: now },
            ),
            final(self)@.symbols == old(self)@.symbols,
            final(self)@.last_update == Some(now),
            final(self)@.symbol_update == old(self)@.symbol_update,
    {
        let ghost sym = symbol@;
        let ghost cnd = candles@;
        let found = self.find_entry(&symbol);
        let entry = CacheEntry { symbol, candles, last_update: now };
        proof {
            assert(entry_model(entry) == EntryModel { symbol: sym, candles: cnd, last_update: now });
        }
        match found {
            Some(i) => {
                proof {
                    lemma_entries_map_update(self.entries@, i as int, entry);
                }
                self.entries[i] = entry;
                proof {
                    assert forall|a: int, b: int|
                        0 <= a < b < self.entries@.len() implies self.entries@[a].symbol@
                        != self.entries@[b].symbol@ by {
                        assert(old(self).entries@[a].symbol@ != old(self).entries@[b].symbol@);
                    }
                }
            },
            None => {
                proof {
                    lemma_entries_map_push(self.entries@, entry);
                }
                self.entries.push(entry);
            },
        }
        self.last_update = Some(now);
    }

    /// Returns a copy of the entry stored under `symbol`, or `None` if the
    /// symbol was never set.  The store itself is unchanged.
    pub fn get(&self, symbol: &String) -> (r: Option<CacheEntry>)
        requires
            self.wf(),
        ensures
            match r {
                Some(e) => self@.candles.contains_key(symbol@) && entry_model(e)
                    == self@.candles[symbol@],
                None => !self@.candles.contains_key(symbol@),
            },
    {
        let found = self.find_entry(symbol);
        match found {
            Some(i) => {
                proof {
                    lemma_entries_map_index(self.entries@, i as int);
                }
                Some(self.entries[i].clone())
            },
            None => {
                proof {
                    lemma_entries_map_contains(self.entries@, symbol@);
                }
                None
            },
        }
    }

    /// Returns a snapshot of every entry, consistent at a single instant:
    /// the returned sequence induces exactly the store's candle map at the
    /// time of the call, and it is an owned copy, so writes applied after
    /// the call are not visible in it.
    pub fn get_all(&self) -> (r: Vec<CacheEntry>)
        requires
            self.wf(),
        ensures
            unique_symbols(r@),
            entries_map(r@) == self@.candles,
    {
        let r = self.entries.clone();
        proof {
            lemma_entries_map_congruent(self.entries@, r@);
        }
        r
    }

    /// Replaces the symbol universe and advances the last-symbol-update
    /// timestamp to `now`.  Candle entries and their timestamp are untouched.
    pub fn set_symbols(&mut self, symbols: Vec<String>, now: i64)
        requires
            old(self).wf(),
        ensures
            final(self).wf(),
            final(self)@.candles == old(self)@.candles,
            final(self)@.symbols == symbols@,
            final(self)@.symbol_update == Some(now),
            final(self)@.last_update == old(self)@.last_update,
    {
        self.symbols = symbols;
        self.symbol_update = Some(now);
    }

    /// Returns the current universe as of the most recent `set_symbols`.
    pub fn get_symbols(&self) -> (r: Vec<String>)
        ensures
            r@ == self@.symbols,
    {
        let r = self.symbols.clone();
        proof {
            assert(r@ =~= self.symbols@);
        }
        r
    }

    /// Millisecond epoch of the most recent candle write, absent until the
    /// first one.
    pub fn get_last_update(&self) -> (r: Option<i64>)
        ensures
            r == self@.last_update,
    {
        self.last_update
    }

    /// Millisecond epoch of the most recent universe publish, absent until
    /// the first one.
    pub fn get_symbol_update(&self) -> (r: Option<i64>)
        ensures
            r == self@.symbol_update,
    {
        self.symbol_update
    }
}

proof fn lemma_entries_map_congruent(s: Seq<CacheEntry>, t: Seq<CacheEntry>)
    requires
        unique_symbols(s),
        t.len() == s.len(),
        forall|i: int| 0 <= i < s.len() ==> entry_model(#[trigger] t[i]) == entry_model(s[i]),
    ensures
        unique_symbols(t),
        entries_map(t) == entries_map(s),
    decreases s.len(),
{
    if s.len() > 0 {
        assert(forall|i: int| 0 <= i < s.len() - 1 ==> s.drop_last()[i] == s[i]);
        assert(forall|i: int| 0 <= i < t.len() - 1 ==> t.drop_last()[i] == t[i]);
        lemma_entries_map_congruent(s.drop_last(), t.drop_last());
        assert(t.last() == t[s.len() - 1]);
        assert(s.last() == s[s.len() - 1]);
    }
}

/// Two writes for different symbols never lose an update: in whichever order
/// the store serializes them, the resulting candle map holds both entries,
/// each with the candles its own write supplied.
pub proof fn lemma_no_lost_update(
    m: Map<Seq<char>, EntryModel>,
    a: EntryModel,
    b: EntryModel,
)
    requires
        a.symbol != b.symbol,
    ensures
        m.insert(a.symbol, a).insert(b.symbol, b) == m.insert(b.symbol, b).insert(a.symbol, a),
        m.insert(a.symbol, a).insert(b.symbol, b).contains_key(a.symbol),
        m.insert(a.symbol, a).insert(b.symbol, b)[a.symbol] == a,
        m.insert(a.symbol, a).insert(b.symbol, b).contains_key(b.symbol),
        m.insert(a.symbol, a).insert(b.symbol, b)[b.symbol] == b,
{
    assert(m.insert(a.symbol, a).insert(b.symbol, b) =~= m.insert(b.symbol, b).insert(
        a.symbol,
        a,
    ));
}

} // verus!
