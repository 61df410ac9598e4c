//! The incremental fuzzy picker: a growing candidate list ranked by the
//! external engine, a bounded-work ranking advance, and a selection cursor
//! that always stays within the matched range.

use vstd::prelude::*;
use vstd::seq_lib::*;
use vstd::set_lib::lemma_len_subset;
use vstd::set_lib::lemma_int_range;
use vstd::set_lib::set_int_range;

use crate::fuzzy::has_id;
use crate::fuzzy::ids_unique;
use crate::fuzzy::injected;
use crate::fuzzy::matched_of;
use crate::fuzzy::matched_ok;
use crate::fuzzy::nucleo_get_matched;
use crate::fuzzy::nucleo_matched_count;
use crate::fuzzy::nucleo_matched_range;
use crate::fuzzy::nucleo_new;
use crate::fuzzy::nucleo_push;
use crate::fuzzy::nucleo_reparse;
use crate::fuzzy::nucleo_tick;
use crate::fuzzy::pattern_matches;
use crate::fuzzy::pattern_of;
use crate::fuzzy::TickStatus;

verus! {

/// A picker over candidates of type `T`: the candidates themselves, the
/// ranking engine fed with their searchable texts (item `j` is injected
/// under id `j`), and the selection cursor.
pub struct Picker<T> {
    index: nucleo::Nucleo<u64>,
    items: Vec<T>,
    selected: u32,
}

impl<T> Picker<T> {
    /// The candidates pushed so far, in push order.
    pub closed spec fn spec_items(self) -> Seq<T> {
        self.items@
    }

    /// The searchable text of each candidate, in push order.
    pub closed spec fn spec_texts(self) -> Seq<Seq<char>> {
        injected(self.index).map_values(|p: (u64, Seq<char>)| p.1)
    }

    /// The live query pattern.
    pub closed spec fn spec_pattern(self) -> Seq<char> {
        pattern_of(self.index)
    }

    /// The current snapshot's matched candidate indices, best match first.
    pub closed spec fn spec_matched(self) -> Seq<u64> {
        matched_of(self.index)
    }

    /// The selection cursor.
    pub closed spec fn spec_selected(self) -> nat {
        self.selected as nat
    }

    /// The selection-cursor invariant: `0 <= cursor < max(1, matched_count)`.
    pub open spec fn cursor_in_range(self) -> bool {
        if self.spec_matched().len() == 0 {
            self.spec_selected() == 0
        } else {
            self.spec_selected() < self.spec_matched().len()
        }
    }

    /// Well-formed: item `j` is injected under id `j` with some text, the
    /// matched ranking consists of distinct injected ids, and the cursor is
    /// in range.
    pub closed spec fn wf(self) -> bool {
        &&& injected(self.index).len() == self.items@.len()
        &&& (forall|j: int|
            0 <= j < injected(self.index).len() ==> (#[trigger] injected(self.index)[j]).0
                == j as u64)
        &&& matched_ok(injected(self.index), matched_of(self.index))
        &&& self.cursor_in_range()
    }

    /// The matched set is exactly the candidates whose text the current
    /// pattern matches: what ranking convergence means.
    pub open spec fn snapshot_complete(self) -> bool {
        forall|j: int|
            0 <= j < self.spec_texts().len() ==> (self.spec_matched().contains(j as u64)
                <==> pattern_matches(self.spec_pattern(), #[trigger] self.spec_texts()[j]))
    }

    pub fn new() -> (r: Picker<T>)
        ensures
            r.wf(),
            r.spec_items() == Seq::<T>::empty(),
            r.spec_pattern() == Seq::<char>::empty(),
            r.spec_matched() == Seq::<u64>::empty(),
            r.spec_selected() == 0,
    {
        Picker { index: nucleo_new(), items: Vec::new(), selected: 0 }
    }

    /// Register a candidate with its searchable text. The snapshot (and so
    /// the matched set and the cursor) is unchanged: the engine picks the
    /// item up at the next ranking advance, not synchronously.
    pub fn push(&mut self, item: T, text: &str)
        requires
            old(self).wf(),
        ensures
            final(self).wf(),
            final(self).spec_items() == old(self).spec_items().push(item),
            final(self).spec_texts() == old(self).spec_texts().push(text@),
            final(self).spec_pattern() == old(self).spec_pattern(),
            final(self).spec_matched() == old(self).spec_matched(),
            final(self).spec_selected() == old(self).spec_selected(),
    {
        let id = self.items.len() as u64;
        nucleo_push(&mut self.index, id, text);
        self.items.push(item);
        proof {
            let items0 = injected(old(self).index);
            let items1 = injected(self.index);
            let m = matched_of(self.index);
            assert forall|a: int| 0 <= a < m.len() implies has_id(items1, #[trigger] m[a]) by {
                let j = choose|j: int| 0 <= j < items0.len() && (#[trigger] items0[j]).0 == m[a];
                assert(items1[j].0 == m[a]);
            }
            assert(final(self).spec_texts() =~= old(self).spec_texts().push(text@));
        }
    }

    /// Replace the query after a character was removed (or any non-extending
    /// edit): a full re-scan of the candidate set.
    pub fn pop_char(&mut self, search: &str)
        requires
            old(self).wf(),
        ensures
            final(self).wf(),
            final(self).spec_pattern() == search@,
            final(self).spec_items() == old(self).spec_items(),
            final(self).spec_texts() == old(self).spec_texts(),
            final(self).spec_matched() == old(self).spec_matched(),
            final(self).spec_selected() == old(self).spec_selected(),
            search@.len() == 0 ==> (forall|text: Seq<char>|
                #[trigger] pattern_matches(final(self).spec_pattern(), text)),
    {
        nucleo_reparse(&mut self.index, search, false);
    }

    /// Replace the query after a character was appended: the engine may
    /// narrow by re-testing only the previously matching items, so the new
    /// text must extend the previous pattern.
    pub fn push_char(&mut self, search: &str)
        requires
            old(self).wf(),
            old(self).spec_pattern().is_prefix_of(search@),
        ensures
            final(self).wf(),
            final(self).spec_pattern() == search@,
            final(self).spec_items() == old(self).spec_items(),
            final(self).spec_texts() == old(self).spec_texts(),
            final(self).spec_matched() == old(self).spec_matched(),
            final(self).spec_selected() == old(self).spec_selected(),
    {
        nucleo_reparse(&mut self.index, search, true);
    }

    /// One bounded ranking advance: wait at most `timeout` milliseconds for
    /// the engine, publish its freshest snapshot, and re-clamp the cursor
    /// when the matched set changed. When the engine reports itself idle,
    /// the snapshot is complete for the current query.
    pub fn tick(&mut self, timeout: u64) -> (st: TickStatus)
        requires
            old(self).wf(),
        ensures
            final(self).wf(),
            final(self).spec_items() == old(self).spec_items(),
            final(self).spec_texts() == old(self).spec_texts(),
            final(self).spec_pattern() == old(self).spec_pattern(),
            !st.changed ==> final(self).spec_matched() == old(self).spec_matched()
                && final(self).spec_selected() == old(self).spec_selected(),
            st.changed ==> final(self).spec_selected() == (if old(self).spec_selected()
                < final(self).spec_matched().len() {
                old(self).spec_selected()
            } else if final(self).spec_matched().len() == 0 {
                0nat
            } else {
                (final(self).spec_matched().len() - 1) as nat
            }),
            !st.running ==> final(self).snapshot_complete(),
    {
        let n = self.items.len();
        proof {
            lemma_index_ids_unique(injected(self.index));
        }
        let st = nucleo_tick(&mut self.index, timeout);
        if st.changed {
            let count = nucleo_matched_count(&self.index);
            let cap = if count > 0 {
                count - 1
            } else {
                0
            };
            if self.selected > cap {
                self.selected = cap;
            }
        }
        st
    }

    /// How many candidates the current snapshot matches: never more than
    /// the number of candidates pushed so far.
    pub fn matched_count(&self) -> (c: u32)
        requires
            self.wf(),
        ensures
            c as nat == self.spec_matched().len(),
            c as nat <= self.spec_items().len(),
    {
        let n = self.items.len();
        proof {
            lemma_matched_bounded(injected(self.index), matched_of(self.index));
        }
        nucleo_matched_count(&self.index)
    }

    /// Move the cursor one rank toward the best match's neighbour above,
    /// saturating at the end of the matched range.
    pub fn inc_selection(&mut self)
        requires
            old(self).wf(),
        ensures
            final(self).wf(),
            final(self).spec_items() == old(self).spec_items(),
            final(self).spec_texts() == old(self).spec_texts(),
            final(self).spec_pattern() == old(self).spec_pattern(),
            final(self).spec_matched() == old(self).spec_matched(),
            final(self).spec_selected() == (if old(self).spec_selected() + 1 < old(
                self,
            ).spec_matched().len() {
                old(self).spec_selected() + 1
            } else {
                old(self).spec_selected()
            }),
    {
        let incremented = if self.selected < u32::MAX {
            self.selected + 1
        } else {
            u32::MAX
        };
        let count = nucleo_matched_count(&self.index);
        if count > incremented {
            self.selected = incremented;
        }
    }

    /// Move the cursor one rank toward the best match, stopping at it.
    pub fn dec_selection(&mut self)
        requires
            old(self).wf(),
        ensures
            final(self).wf(),
            final(self).spec_items() == old(self).spec_items(),
            final(self).spec_texts() == old(self).spec_texts(),
            final(self).spec_pattern() == old(self).spec_pattern(),
            final(self).spec_matched() == old(self).spec_matched(),
            final(self).spec_selected() == (if old(self).spec_selected() > 0 {
                old(self).spec_selected() - 1
            } else {
                0
            }),
    {
        if self.selected > 0 {
            self.selected = self.selected - 1;
        }
    }

    /// Put the cursor at rank `i`, clamped into the matched range (and
    /// pinned at the best rank when nothing matches).
    pub fn select(&mut self, i: u32)
        requires
            old(self).wf(),
        ensures
            final(self).wf(),
            final(self).spec_items() == old(self).spec_items(),
            final(self).spec_texts() == old(self).spec_texts(),
            final(self).spec_pattern() == old(self).spec_pattern(),
            final(self).spec_matched() == old(self).spec_matched(),
            final(self).spec_selected() as int == (if (i as nat) < old(self).spec_matched().len() {
                i as int
            } else if old(self).spec_matched().len() == 0 {
                0int
            } else {
                old(self).spec_matched().len() as int - 1
            }),
    {
        let count = nucleo_matched_count(&self.index);
        if count > i {
            self.selected = i;
        } else if count == 0 {
            self.selected = 0;
        } else {
            self.selected = count - 1;
        }
    }

    pub fn selected(&self) -> (r: u32)
        ensures
            r as nat == self.spec_selected(),
    {
        self.selected
    }

    /// The candidate at the cursor's rank in the current snapshot, or
    /// nothing when the match set is empty: the picker's sole output.
    pub fn get_selected(&self) -> (r: Option<&T>)
        requires
            self.wf(),
        ensures
            (r is Some) <==> self.spec_matched().len() > 0,
            r matches Some(x) ==> self.spec_selected() < self.spec_matched().len() && *x
                == self.spec_items()[self.spec_matched()[self.spec_selected() as int] as int],
    {
        let n = self.items.len();
        match nucleo_get_matched(&self.index, self.selected) {
            Some(id) => {
                proof {
                    let items = injected(self.index);
                    let m = matched_of(self.index);
                    let a = self.selected as int;
                    assert(has_id(items, m[a]));
                    let j = choose|j: int| 0 <= j < items.len() && (#[trigger] items[j]).0 == m[a];
                    assert(items[j].0 == j as u64);
                    assert(id == j as u64);
                    assert(id < n as u64);
                    assert(id as int == j);
                }
                Some(&self.items[id as usize])
            },
            None => None,
        }
    }


    /// The candidate pushed under the given index (the ids the matched
    /// ranking and the render window hand out).
    pub fn get_item(&self, id: u64) -> (r: Option<&T>)
        requires
            self.wf(),
        ensures
            (r is Some) <==> (id as nat) < self.spec_items().len(),
            r matches Some(x) ==> *x == self.spec_items()[id as int],
    {
        if id < self.items.len() as u64 {
            Some(&self.items[id as usize])
        } else {
            None
        }
    }

    /// The candidate indices of the render window: the best `rows` ranks
    /// (or all of them when fewer match), best match first.
    pub fn matched_window(&self, rows: u32) -> (ids: Vec<u64>)
        requires
            self.wf(),
        ensures
            ids@ == self.spec_matched().take(
                if (rows as nat) < self.spec_matched().len() {
                    rows as int
                } else {
                    self.spec_matched().len() as int
                },
            ),
    {
        let count = nucleo_matched_count(&self.index);
        let end = if count < rows {
            count
        } else {
            rows
        };
        nucleo_matched_range(&self.index, 0, end)
    }
}

/// Items injected under their own index carry pairwise distinct ids.
proof fn lemma_index_ids_unique(items: Seq<(u64, Seq<char>)>)
    requires
        items.len() <= u64::MAX,
        forall|j: int| 0 <= j < items.len() ==> (#[trigger] items[j]).0 == j as u64,
    ensures
        ids_unique(items),
{
    assert forall|a: int, b: int|
        0 <= a < b < items.len() implies (#[trigger] items[a]).0 != (#[trigger] items[b]).0 by {
        assert(items[a].0 == a as u64);
        assert(items[b].0 == b as u64);
    }
}

/// A sound matched ranking over items injected under their own index never
/// holds more entries than there are items: distinct ids drawn from
/// `{0, ..., items.len() - 1}`.
pub proof fn lemma_matched_bounded(items: Seq<(u64, Seq<char>)>, matched: Seq<u64>)
    requires
        matched_ok(items, matched),
        items.len() <= u64::MAX,
        forall|j: int| 0 <= j < items.len() ==> (#[trigger] items[j]).0 == j as u64,
    ensures
        matched.len() <= items.len(),
{
    let n = items.len() as int;
    lemma_index_ids_unique(items);
    let ints = matched.map_values(|id: u64| id as int);
    assert(ints.no_duplicates()) by {
        assert forall|a: int, b: int|
            0 <= a < ints.len() && 0 <= b < ints.len() && a != b implies ints[a] != ints[b] by {
            if a < b {
                assert(matched[a] != matched[b]);
            } else {
                assert(matched[b] != matched[a]);
            }
        }
    }
    ints.unique_seq_to_set();
    assert forall|x: int| ints.to_set().contains(x) implies set_int_range(0, n).contains(x) by {
        let a = choose|a: int| 0 <= a < ints.len() && ints[a] == x;
        assert(has_id(items, matched[a]));
        let j = choose|j: int| 0 <= j < items.len() && (#[trigger] items[j]).0 == matched[a];
        assert(items[j].0 == j as u64);
    }
    lemma_int_range(0, n);
    lemma_len_subset(ints.to_set(), set_int_range(0, n));
}

/// The selection-cursor invariant, stated on its own: in any well-formed
/// picker (and every picker operation keeps well-formedness),
/// `0 <= cursor < max(1, matched_count)`.
pub proof fn lemma_cursor_invariant<T>(p: Picker<T>)
    requires
        p.wf(),
    ensures
        p.cursor_in_range(),
{
}

/// Round trip: once the query is empty again and the ranking has
/// converged, every candidate is matched — the full candidate set is
/// restored. (That an empty query's pattern matches every text is what the
/// query-edit contract states.)
pub proof fn lemma_empty_query_round_trip<T>(p: Picker<T>)
    requires
        p.wf(),
        p.snapshot_complete(),
        forall|text: Seq<char>| #[trigger] pattern_matches(p.spec_pattern(), text),
    ensures
        forall|j: int|
            0 <= j < p.spec_items().len() ==> #[trigger] p.spec_matched().contains(j as u64),
        p.spec_matched().len() == p.spec_items().len(),
{
    broadcast use vstd::std_specs::vec::axiom_spec_len;

    let items = injected(p.index);
    let m = matched_of(p.index);
    assert(p.items@.len() == vstd::std_specs::vec::spec_vec_len(&p.items));
    assert(items.len() <= u64::MAX);
    assert forall|j: int| 0 <= j < p.spec_items().len() implies #[trigger] m.contains(j as u64) by {
        assert(pattern_matches(p.spec_pattern(), p.spec_texts()[j]));
    }
    lemma_matched_bounded(items, m);
    // every index occurs in the matched ranking, and they are distinct,
    // so the ranking is no shorter than the item list
    let ints = m.map_values(|id: u64| id as int);
    assert(ints.no_duplicates()) by {
        assert forall|a: int, b: int|
            0 <= a < ints.len() && 0 <= b < ints.len() && a != b implies ints[a] != ints[b] by {
            if a < b {
                assert(m[a] != m[b]);
            } else {
                assert(m[b] != m[a]);
            }
        }
    }
    ints.unique_seq_to_set();
    assert forall|x: int| set_int_range(0, items.len() as int).contains(x) implies ints.to_set().contains(
        x,
    ) by {
        assert(m.contains(x as u64));
        let a = choose|a: int| 0 <= a < m.len() && m[a] == x as u64;
        assert(ints[a] == x);
    }
    lemma_int_range(0, items.len() as int);
    lemma_len_subset(set_int_range(0, items.len() as int), ints.to_set());
}

} // verus!
