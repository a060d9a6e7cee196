//! The table of share counts behind a portfolio.

use vstd::hash_map::StringHashMap;
use vstd::prelude::*;

use crate::portfolio::{lists_holdings, names_symbol};

verus! {

/// A share count per symbol: a hash table from symbol to count, and beside it
/// the symbols that have an entry, in the order in which they were first
/// traded, so that the holdings can be listed.
pub(crate) struct Positions {
    table: StringHashMap<i32>,
    symbols: Vec<String>,
}

impl View for Positions {
    type V = Map<Seq<char>, int>;

    /// The count of every symbol: its entry in the table, or zero without one.
    closed spec fn view(&self) -> Map<Seq<char>, int> {
        Map::total(
            |symbol: Seq<char>|
                if self.table@.contains_key(symbol) {
                    self.table@[symbol] as int
                } else {
                    0int
                },
        )
    }
}

impl Positions {
    /// The list of symbols holds the keys of the table, each once.
    pub(crate) closed spec fn wf(&self) -> bool {
        &&& forall|i: int|
            0 <= i < self.symbols@.len() ==> self.table@.contains_key(
                (#[trigger] self.symbols@[i])@,
            )
        &&& forall|symbol: Seq<char>| #[trigger]
            self.table@.contains_key(symbol) ==> exists|i: int|
                0 <= i < self.symbols@.len() && (#[trigger] self.symbols@[i])@ == symbol
        &&& forall|i: int, j: int|
            0 <= i < j < self.symbols@.len() ==> (#[trigger] self.symbols@[i])@ != (
            #[trigger] self.symbols@[j])@
    }

    /// Every symbol has a count, and every count fits in `i32`.
    pub(crate) proof fn lemma_view_total(&self)
        ensures
            forall|symbol: Seq<char>| self@.dom().contains(symbol),
            forall|symbol: Seq<char>| i32::MIN <= #[trigger] self@[symbol] <= i32::MAX,
    {
    }

    /// A table without entries: every count is zero.
    pub(crate) fn new() -> (positions: Self)
        ensures
            positions.wf(),
            positions@ == Map::total(|symbol: Seq<char>| 0int),
    {
        let positions = Positions { table: StringHashMap::new(), symbols: Vec::new() };
        assert(positions@ =~= Map::total(|symbol: Seq<char>| 0int));
        positions
    }

    /// The share count of `symbol`.
    pub(crate) fn get(&self, symbol: &str) -> (shares: i32)
        ensures
            shares == self@[symbol@],
    {
        match self.table.get(symbol) {
            Some(shares) => *shares,
            None => 0,
        }
    }

    /// Sets the share count of `symbol`, and lists the symbol if it had no
    /// entry yet.
    pub(crate) fn set(&mut self, symbol: &str, shares: i32)
        requires
            old(self).wf(),
        ensures
            final(self).wf(),
            final(self)@ == old(self)@.insert(symbol@, shares as int),
    {
        if !self.table.contains_key(symbol) {
            self.symbols.push(symbol.to_owned());
        }
        self.table.insert(symbol.to_owned(), shares);
        proof {
            let before = old(self).symbols@;
            let after = self.symbols@;
            assert forall|key: Seq<char>| #[trigger] self.table@.contains_key(key) implies exists|
                i: int,
            |
                0 <= i < after.len() && (#[trigger] after[i])@ == key by {
                if key == symbol@ && !old(self).table@.contains_key(symbol@) {
                    assert(after[after.len() - 1]@ == key);
                } else {
                    assert(old(self).table@.contains_key(key));
                    let i = choose|i: int| 0 <= i < before.len() && (#[trigger] before[i])@ == key;
                    assert(after[i]@ == key);
                }
            }
            assert(self@ =~= old(self)@.insert(symbol@, shares as int));
        }
    }

    /// The symbols whose share count is not zero, each once and with its
    /// count.
    pub(crate) fn nonzero(&self) -> (entries: Vec<(String, i32)>)
        requires
            self.wf(),
        ensures
            lists_holdings(entries@, self@),
    {
        let mut entries: Vec<(String, i32)> = Vec::new();
        // origin[i] is the place in `symbols` that entry i was taken from.
        let ghost mut origin: Seq<int> = Seq::empty();
        let mut k: usize = 0;
        while k < self.symbols.len()
            invariant
                self.wf(),
                k <= self.symbols@.len(),
                origin.len() == entries@.len(),
                forall|i: int|
                    0 <= i < entries@.len() ==> {
                        &&& 0 <= #[trigger] origin[i] < k
                        &&& entries@[i].0@ == self.symbols@[origin[i]]@
                        &&& entries@[i].1 == self@[entries@[i].0@]
                        &&& entries@[i].1 != 0
                    },
                forall|i: int, j: int|
                    0 <= i < j < entries@.len() ==> #[trigger] origin[i] < #[trigger] origin[j],
                forall|j: int|
                    0 <= j < k && self@[(#[trigger] self.symbols@[j])@] != 0 ==> names_symbol(
                        entries@,
                        self.symbols@[j]@,
                    ),
            decreases self.symbols@.len() - k,
        {
            let symbol = &self.symbols[k];
            let shares = self.get(symbol.as_str());
            if shares != 0 {
                let ghost listed = entries@;
                entries.push((symbol.clone(), shares));
                proof {
                    origin = origin.push(k as int);
                    assert forall|j: int|
                        0 <= j <= k && self@[(#[trigger] self.symbols@[j])@]
                            != 0 implies names_symbol(entries@, self.symbols@[j]@) by {
                        if j < k {
                            lemma_push_keeps_symbol(
                                listed,
                                entries@[listed.len() as int],
                                self.symbols@[j]@,
                            );
                        } else {
                            assert(entries@[listed.len() as int].0@ == self.symbols@[j]@);
                        }
                    }
                }
            }
            k += 1;
        }
        proof {
            assert forall|symbol: Seq<char>| (#[trigger] self@[symbol]) != 0 implies names_symbol(
                entries@,
                symbol,
            ) by {
                self.lemma_listed(symbol);
                let j = choose|j: int|
                    0 <= j < self.symbols@.len() && (#[trigger] self.symbols@[j])@ == symbol;
                assert(self@[self.symbols@[j]@] != 0);
            }
            assert forall|i: int, j: int| 0 <= i < j < entries@.len() implies (
            #[trigger] entries@[i]).0@ != (#[trigger] entries@[j]).0@ by {
                assert(origin[i] < origin[j]);
            }
            assert forall|i: int| 0 <= i < entries@.len() implies (#[trigger] entries@[i]).1 != 0
                && self@[entries@[i].0@] == entries@[i].1 by {
                assert(0 <= origin[i]);
            }
        }
        entries
    }

    /// A symbol whose count is not zero stands in the list of symbols.
    proof fn lemma_listed(&self, symbol: Seq<char>)
        requires
            self.wf(),
            self@[symbol] != 0,
        ensures
            exists|j: int| 0 <= j < self.symbols@.len() && (#[trigger] self.symbols@[j])@ == symbol,
    {
        assert(self.table@.contains_key(symbol));
    }
}

/// An entry for a symbol is still there after another entry is added.
proof fn lemma_push_keeps_symbol(
    entries: Seq<(String, i32)>,
    entry: (String, i32),
    symbol: Seq<char>,
)
    requires
        names_symbol(entries, symbol),
    ensures
        names_symbol(entries.push(entry), symbol),
{
    let i = choose|i: int| 0 <= i < entries.len() && (#[trigger] entries[i]).0@ == symbol;
    assert(entries.push(entry)[i].0@ == symbol);
}

} // verus!
