//! The boundary to the external fuzzy-ranking engine.
//!
//! The engine is held behind a few trusted declarations: names for what it
//! holds (the injected items, the live pattern, the snapshot's matched
//! ranking) and wrappers whose contracts state what its source shows. The
//! engine ranks on background workers, so between ticks the snapshot is
//! stable, and only once a tick reports the worker idle is the matched set
//! exactly the items the pattern matches.

use vstd::prelude::*;

use nucleo::pattern::CaseMatching;
use nucleo::pattern::Normalization;

verus! {

#[verifier::external_type_specification]
#[verifier::external_body]
#[verifier::reject_recursive_types(T)]
pub struct ExNucleo<T: Sync + Send + 'static>(nucleo::Nucleo<T>);

/// The items pushed into the engine so far, in order: an id with the
/// searchable text the engine ranks it by.
pub uninterp spec fn injected(n: nucleo::Nucleo<u64>) -> Seq<(u64, Seq<char>)>;

/// The engine's live query pattern, as the text it was parsed from.
pub uninterp spec fn pattern_of(n: nucleo::Nucleo<u64>) -> Seq<char>;

/// The current snapshot's matched item ids, best match first.
pub uninterp spec fn matched_of(n: nucleo::Nucleo<u64>) -> Seq<u64>;

/// The engine's matching rule: whether a pattern parsed from the first text
/// matches the second. A function of the two texts alone.
pub uninterp spec fn pattern_matches(pattern: Seq<char>, text: Seq<char>) -> bool;

/// Some injected item carries this id.
pub open spec fn has_id(items: Seq<(u64, Seq<char>)>, id: u64) -> bool {
    exists|j: int| 0 <= j < items.len() && (#[trigger] items[j]).0 == id
}

/// The injected items carry pairwise distinct ids.
pub open spec fn ids_unique(items: Seq<(u64, Seq<char>)>) -> bool {
    forall|a: int, b: int|
        0 <= a < b < items.len() ==> (#[trigger] items[a]).0 != (#[trigger] items[b]).0
}

/// The matched ranking is sound: every entry is an injected item's id, each
/// internal match slot used once — so when the injected ids are pairwise
/// distinct, so are the matched ids.
pub open spec fn matched_ok(items: Seq<(u64, Seq<char>)>, matched: Seq<u64>) -> bool {
    &&& forall|a: int| 0 <= a < matched.len() ==> has_id(items, #[trigger] matched[a])
    &&& (ids_unique(items) ==> (forall|a: int, b: int|
        0 <= a < b < matched.len() ==> matched[a] != matched[b]))
}

/// The matched ranking is complete for the pattern: an injected item is
/// matched exactly when the pattern matches its text.
pub open spec fn matched_complete(
    items: Seq<(u64, Seq<char>)>,
    pattern: Seq<char>,
    matched: Seq<u64>,
) -> bool {
    forall|j: int|
        0 <= j < items.len() ==> (matched.contains((#[trigger] items[j]).0) <==> pattern_matches(
            pattern,
            items[j].1,
        ))
}

/// What a tick reports: whether the snapshot changed, and whether ranking
/// work is still running in the background.
pub struct TickStatus {
    pub changed: bool,
    pub running: bool,
}

/// Relies on nucleo::Nucleo::new: a fresh single-column matcher with no
/// items, an empty pattern and an empty snapshot.
#[verifier::external_body]
pub(crate) fn nucleo_new() -> (n: nucleo::Nucleo<u64>)
    ensures
        injected(n) == Seq::<(u64, Seq<char>)>::empty(),
        pattern_of(n) == Seq::<char>::empty(),
        matched_of(n) == Seq::<u64>::empty(),
{
    nucleo::Nucleo::new(nucleo::Config::DEFAULT, std::sync::Arc::new(|| {}), None, 1)
}

/// Relies on nucleo::Injector::push (through Nucleo::injector): appends the
/// item with its searchable text; the snapshot is unchanged until the next
/// tick picks the item up.
#[verifier::external_body]
pub(crate) fn nucleo_push(n: &mut nucleo::Nucleo<u64>, id: u64, text: &str)
    ensures
        injected(*final(n)) == injected(*old(n)).push((id, text@)),
        pattern_of(*final(n)) == pattern_of(*old(n)),
        matched_of(*final(n)) == matched_of(*old(n)),
{
    let t: nucleo::Utf32String = text.into();
    n.injector().push(id, move |_, dst| dst[0] = t);
}

/// Relies on nucleo::pattern::MultiPattern::reparse (column 0, smart case,
/// smart normalisation): replaces the live pattern. With `append` the
/// engine may re-test only the previously matching items, which is sound
/// only when the new text extends the old one, so that is required here.
/// An empty query's pattern matches every text (an empty pattern scores
/// every item). The snapshot is unchanged until the next tick.
#[verifier::external_body]
pub(crate) fn nucleo_reparse(n: &mut nucleo::Nucleo<u64>, query: &str, append: bool)
    requires
        append ==> pattern_of(*old(n)).is_prefix_of(query@),
    ensures
        pattern_of(*final(n)) == query@,
        injected(*final(n)) == injected(*old(n)),
        matched_of(*final(n)) == matched_of(*old(n)),
        query@.len() == 0 ==> (forall|text: Seq<char>|
            #[trigger] pattern_matches(pattern_of(*final(n)), text)),
{
    n.pattern.reparse(0, query, CaseMatching::Smart, Normalization::Smart, append);
}

/// Relies on nucleo::Nucleo::tick: performs at most `timeout` milliseconds
/// of waiting for the ranking workers and publishes the freshest complete
/// snapshot. The items and pattern are untouched; an unchanged snapshot
/// keeps its matched ranking; the matched ranking draws every entry from
/// the injected items, each internal slot once; and when the worker
/// reports itself idle (`running` false), the matched entries are exactly
/// the injected items whose text the pattern matches — which reads as a
/// statement about ids only where the injected ids are pairwise distinct
/// (the engine matches per item, not per id).
#[verifier::external_body]
pub(crate) fn nucleo_tick(n: &mut nucleo::Nucleo<u64>, timeout: u64) -> (st: TickStatus)
    ensures
        injected(*final(n)) == injected(*old(n)),
        pattern_of(*final(n)) == pattern_of(*old(n)),
        !st.changed ==> matched_of(*final(n)) == matched_of(*old(n)),
        matched_ok(injected(*final(n)), matched_of(*final(n))),
        (!st.running && ids_unique(injected(*final(n)))) ==> matched_complete(
            injected(*final(n)),
            pattern_of(*final(n)),
            matched_of(*final(n)),
        ),
{
    let st = n.tick(timeout);
    TickStatus { changed: st.changed, running: st.running }
}

/// Relies on nucleo::Snapshot::matched_item_count.
#[verifier::external_body]
pub(crate) fn nucleo_matched_count(n: &nucleo::Nucleo<u64>) -> (c: u32)
    ensures
        c as nat == matched_of(*n).len(),
{
    n.snapshot().matched_item_count()
}

/// Relies on nucleo::Snapshot::get_matched_item: the id at the given rank
/// (best match first), or nothing at or beyond the matched count.
#[verifier::external_body]
pub(crate) fn nucleo_get_matched(n: &nucleo::Nucleo<u64>, rank: u32) -> (r: Option<u64>)
    ensures
        (r is Some) <==> (rank as nat) < matched_of(*n).len(),
        r matches Some(id) ==> id == matched_of(*n)[rank as int],
{
    n.snapshot().get_matched_item(rank).map(|item| *item.data)
}

/// Relies on nucleo::Snapshot::matched_items: the ids of the given rank
/// range, best match first (the range must lie within the matched count).
#[verifier::external_body]
pub(crate) fn nucleo_matched_range(n: &nucleo::Nucleo<u64>, start: u32, end: u32) -> (ids: Vec<u64>)
    requires
        start <= end,
        end as nat <= matched_of(*n).len(),
    ensures
        ids@ == matched_of(*n).subrange(start as int, end as int),
{
    n.snapshot().matched_items(start..end).map(|item| *item.data).collect()
}

} // verus!
