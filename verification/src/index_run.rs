//! A whole scan of the library for the semantic index: what happens to
//! each item, the report of the scan, the index entries it removes, and
//! what the index holds afterwards.
//!
//! The scan runs in three steps. For each item [`scan_decision`] says
//! whether it is passed over, left as unchanged or indexed; the caller
//! indexes those it must and records how that went in the item's
//! [`ScanEntry`]; [`summarize_scan`] then gives the report and the stale
//! entries to remove.
//!
//! The keys of counted items are kept in a `Vec` and searched linearly (see
//! [`stale_keys`]): vstd's `HashSet` specification covers only keys known to
//! obey its key model, and `String` is not among them.

use vstd::prelude::*;

use crate::security::{opt_view, push_string_copy, strings_view};
use crate::semantic::{
    record_spec, sat_add, scan_decision, stale_keys, stale_keys_spec, zero_report, IndexOutcome,
    IndexReport, ScanDecision,
};

verus! {

/// What indexing an item gave.
#[derive(Clone, Copy, Debug, PartialEq, Eq, Structural)]
pub enum ItemWork {
    /// The item was not indexed in this scan.
    NotRun,
    /// Its text was cut into this many chunks (at least one), embedded and
    /// stored.
    Indexed(usize),
    /// It had no text to index, or the text gave no chunk; nothing was
    /// stored.
    Empty,
}

/// The work for an item whose text was cut into `chunks` pieces: an item
/// whose text gives no piece is skipped as empty, the others are stored.
pub fn work_of_chunks(chunks: usize) -> (r: ItemWork)
    ensures
        chunks == 0 ==> r == ItemWork::Empty,
        chunks > 0 ==> r == ItemWork::Indexed(chunks),
{
    if chunks == 0 {
        ItemWork::Empty
    } else {
        ItemWork::Indexed(chunks)
    }
}

/// One library item as the scan saw it.
#[derive(Debug)]
pub struct ScanEntry {
    /// The item key.
    pub key: String,
    /// Whether the item is in the trash.
    pub deleted: bool,
    /// Whether items of its kind are indexed.
    pub indexable: bool,
    /// Its current modification date.
    pub date_modified: Option<String>,
    /// The modification date the index stored for it.
    pub stored_date: Option<String>,
    /// What indexing it gave.
    pub work: ItemWork,
}

/// The item is counted by the scan: not trashed, of an indexed kind.
pub open spec fn eligible(e: ScanEntry) -> bool {
    !e.deleted && e.indexable
}

/// The index stored the item's current modification date.
pub open spec fn unchanged_entry(e: ScanEntry) -> bool {
    e.stored_date matches Some(s) && e.date_modified matches Some(c) && s@ == c@
}

/// What the scan does with the item.
pub open spec fn entry_decision(e: ScanEntry, force: bool) -> ScanDecision {
    if !eligible(e) {
        ScanDecision::NotScanned
    } else if !force && unchanged_entry(e) {
        ScanDecision::Unchanged
    } else {
        ScanDecision::Index
    }
}

/// The scan stores the item in the index.
pub open spec fn writes(e: ScanEntry, force: bool) -> bool {
    entry_decision(e, force) == ScanDecision::Index && e.work is Indexed
}

/// `r` after the scan's step for the item.
pub open spec fn report_step(r: IndexReport, e: ScanEntry, force: bool) -> IndexReport {
    match entry_decision(e, force) {
        ScanDecision::NotScanned => r,
        ScanDecision::Unchanged => record_spec(r, IndexOutcome::SkippedUnchanged),
        ScanDecision::Index => match e.work {
            ItemWork::Indexed(n) => record_spec(
                IndexReport { chunks_written: sat_add(r.chunks_written, n), ..r },
                IndexOutcome::Indexed,
            ),
            _ => record_spec(r, IndexOutcome::SkippedEmpty),
        },
    }
}

/// The report of the scan over `es`, before stale entries are removed.
pub open spec fn scan_report(es: Seq<ScanEntry>, force: bool) -> IndexReport
    decreases es.len(),
{
    if es.len() == 0 {
        zero_report()
    } else {
        report_step(scan_report(es.drop_last(), force), es.last(), force)
    }
}

/// The keys of the items the scan counts, in order.
pub open spec fn eligible_keys(es: Seq<ScanEntry>) -> Seq<Seq<char>>
    decreases es.len(),
{
    if es.len() == 0 {
        Seq::empty()
    } else if eligible(es.last()) {
        eligible_keys(es.drop_last()).push(es.last().key@)
    } else {
        eligible_keys(es.drop_last())
    }
}

/// The report of the whole scan: the items' steps, then one removal for
/// each stored key no counted item has.
pub open spec fn run_report(es: Seq<ScanEntry>, stored_keys: Seq<Seq<char>>, force: bool) -> IndexReport {
    IndexReport {
        items_deleted: stale_keys_spec(stored_keys, eligible_keys(es)).len() as usize,
        ..scan_report(es, force)
    }
}

/// The report of a scan and the index entries it removes.
#[derive(Debug)]
pub struct ScanSummary {
    /// The counts of the scan.
    pub report: IndexReport,
    /// The stored keys of items no longer counted, to remove from the index.
    pub to_delete: Vec<String>,
}

fn opt_str(o: &Option<String>) -> (r: Option<&str>)
    ensures
        (match r {
            Some(s) => Some(s@),
            None => None::<Seq<char>>,
        }) == opt_view(*o),
{
    match o {
        Some(s) => Some(s.as_str()),
        None => None,
    }
}

proof fn lemma_scan_report_keeps_deletions(es: Seq<ScanEntry>, force: bool)
    ensures
        scan_report(es, force).items_deleted == 0,
    decreases es.len(),
{
    if es.len() > 0 {
        lemma_scan_report_keeps_deletions(es.drop_last(), force);
    }
}

/// Sums up a scan over `entries`, the items in library order, with the
/// keys the index held when it began (`stored_keys`): the report, and the
/// stored keys of items no longer counted, in stored order.
pub fn summarize_scan(entries: &Vec<ScanEntry>, stored_keys: &Vec<String>, force: bool) -> (r: ScanSummary)
    ensures
        r.report == run_report(entries@, strings_view(stored_keys@), force),
        strings_view(r.to_delete@) == stale_keys_spec(strings_view(stored_keys@), eligible_keys(entries@)),
{
    let mut report = IndexReport::default();
    let mut current: Vec<String> = Vec::new();
    let mut i: usize = 0;
    assert(entries@.take(0) =~= Seq::<ScanEntry>::empty());
    while i < entries.len()
        invariant
            0 <= i <= entries.len(),
            report == scan_report(entries@.take(i as int), force),
            strings_view(current@) == eligible_keys(entries@.take(i as int)),
        decreases entries.len() - i,
    {
        let e = &entries[i];
        proof {
            assert(entries@.take(i + 1).drop_last() =~= entries@.take(i as int));
            assert(entries@.take(i + 1).last() == *e);
        }
        let d = scan_decision(e.deleted, e.indexable, force, opt_str(&e.stored_date), opt_str(&e.date_modified));
        assert(d == entry_decision(*e, force));
        match d {
            ScanDecision::NotScanned => {},
            ScanDecision::Unchanged => {
                push_string_copy(&mut current, &e.key);
                report.record(IndexOutcome::SkippedUnchanged);
            },
            ScanDecision::Index => {
                push_string_copy(&mut current, &e.key);
                match e.work {
                    ItemWork::Indexed(n) => {
                        report.record_chunks(n);
                        report.record(IndexOutcome::Indexed);
                    },
                    _ => {
                        report.record(IndexOutcome::SkippedEmpty);
                    },
                }
            },
        }
        i = i + 1;
    }
    assert(entries@.take(entries.len() as int) =~= entries@);
    let to_delete = stale_keys(stored_keys, &current);
    let ghost scanned = report;
    proof {
        lemma_scan_report_keeps_deletions(entries@, force);
    }
    let mut j: usize = 0;
    while j < to_delete.len()
        invariant
            0 <= j <= to_delete.len(),
            report == (IndexReport { items_deleted: j, ..scanned }),
        decreases to_delete.len() - j,
    {
        report.record_deleted();
        j = j + 1;
    }
    proof {
        assert(strings_view(to_delete@).len() == to_delete@.len());
    }
    ScanSummary { report, to_delete }
}

proof fn lemma_scan_counts(es: Seq<ScanEntry>, force: bool)
    requires
        es.len() <= usize::MAX,
    ensures
        scan_report(es, force).items_scanned == eligible_keys(es).len(),
        eligible_keys(es).len() <= es.len(),
        scan_report(es, force).items_indexed + scan_report(es, force).items_skipped_unchanged
            + scan_report(es, force).items_skipped_empty == scan_report(es, force).items_scanned,
    decreases es.len(),
{
    if es.len() > 0 {
        lemma_scan_counts(es.drop_last(), force);
    }
}

proof fn lemma_eligible_keys_members(es: Seq<ScanEntry>)
    ensures
        forall|i: int| 0 <= i < es.len() && eligible(#[trigger] es[i]) ==> eligible_keys(es).contains(es[i].key@),
        forall|k: Seq<char>| #[trigger] eligible_keys(es).contains(k) ==> exists|i: int| 0 <= i < es.len() && eligible(es[i]) && es[i].key@ == k,
    decreases es.len(),
{
    if es.len() > 0 {
        let p = es.drop_last();
        lemma_eligible_keys_members(p);
        assert forall|i: int| 0 <= i < es.len() && eligible(#[trigger] es[i]) implies eligible_keys(es).contains(es[i].key@) by {
            if i < es.len() - 1 {
                assert(p[i] == es[i]);
                assert(eligible_keys(p).contains(es[i].key@));
                let j = choose|j: int| 0 <= j < eligible_keys(p).len() && eligible_keys(p)[j] == es[i].key@;
                if eligible(es.last()) {
                    assert(eligible_keys(es)[j] == eligible_keys(p)[j]);
                }
            } else {
                assert(es.last() == es[i]);
                assert(eligible_keys(es)[eligible_keys(es).len() - 1] == es[i].key@);
            }
        }
        assert forall|k: Seq<char>| #[trigger] eligible_keys(es).contains(k) implies exists|i: int| 0 <= i < es.len() && eligible(es[i]) && es[i].key@ == k by {
            let j = choose|j: int| 0 <= j < eligible_keys(es).len() && eligible_keys(es)[j] == k;
            if eligible(es.last()) && j == eligible_keys(p).len() {
                assert(es[es.len() - 1] == es.last());
            } else {
                assert(eligible_keys(p)[j] == k);
                assert(eligible_keys(p).contains(k));
                let i = choose|i: int| 0 <= i < p.len() && eligible(p[i]) && p[i].key@ == k;
                assert(es[i] == p[i]);
            }
        }
    }
}

/// Law: a scan counts every item that is neither trashed nor of a kind
/// that is not indexed, and only those; each counted item ends in exactly
/// one outcome; it removes one entry for each stored key that no counted
/// item has, and only such keys; so every stored key it keeps, and every
/// item it stores, belongs to a counted item.
pub proof fn law_index_run_accounts_for_every_item(es: Seq<ScanEntry>, stored_keys: Seq<Seq<char>>, force: bool)
    requires
        es.len() <= usize::MAX,
        stored_keys.len() <= usize::MAX,
    ensures
        run_report(es, stored_keys, force).items_scanned == eligible_keys(es).len(),
        run_report(es, stored_keys, force).items_indexed + run_report(es, stored_keys, force).items_skipped_unchanged
            + run_report(es, stored_keys, force).items_skipped_empty == run_report(es, stored_keys, force).items_scanned,
        run_report(es, stored_keys, force).items_deleted == stale_keys_spec(stored_keys, eligible_keys(es)).len(),
        forall|k: Seq<char>| #[trigger] stale_keys_spec(stored_keys, eligible_keys(es)).contains(k)
            ==> stored_keys.contains(k) && !eligible_keys(es).contains(k),
        forall|k: Seq<char>| #[trigger] stored_keys.contains(k) && !stale_keys_spec(stored_keys, eligible_keys(es)).contains(k)
            ==> eligible_keys(es).contains(k),
        forall|i: int| 0 <= i < es.len() && writes(#[trigger] es[i], force) ==> eligible_keys(es).contains(es[i].key@),
{
    lemma_scan_counts(es, force);
    lemma_eligible_keys_members(es);
    let keys = eligible_keys(es);
    let pred = |k: Seq<char>| !keys.contains(k);
    let stale = stored_keys.filter(pred);
    stored_keys.lemma_filter_len(pred);
    assert(stale == stale_keys_spec(stored_keys, keys));
    assert forall|k: Seq<char>| #[trigger] stale.contains(k) implies stored_keys.contains(k) && !keys.contains(k) by {
        stored_keys.lemma_filter_contains_rev(pred, k);
        let j = choose|j: int| 0 <= j < stale.len() && stale[j] == k;
        stored_keys.lemma_filter_pred(pred, j);
    }
    assert forall|k: Seq<char>| #[trigger] stored_keys.contains(k) && !stale.contains(k) implies keys.contains(k) by {
        let i = choose|i: int| 0 <= i < stored_keys.len() && stored_keys[i] == k;
        if !keys.contains(k) {
            stored_keys.lemma_filter_contains(pred, i);
        }
    }
}

/// The date the index holds for `k`: none when it has no entry for `k`.
pub open spec fn lookup(store: Map<Seq<char>, Option<Seq<char>>>, k: Seq<char>) -> Option<Seq<char>> {
    if store.dom().contains(k) {
        store[k]
    } else {
        None
    }
}

/// Some item the scan stores has key `k`.
pub open spec fn writes_key(es: Seq<ScanEntry>, force: bool, k: Seq<char>) -> bool {
    exists|i: int| 0 <= i < es.len() && writes(es[i], force) && es[i].key@ == k
}

/// The current date of the item the scan stores under `k`.
pub open spec fn written_date(es: Seq<ScanEntry>, force: bool, k: Seq<char>) -> Option<Seq<char>> {
    opt_view(es[choose|i: int| 0 <= i < es.len() && writes(es[i], force) && es[i].key@ == k].date_modified)
}

/// The index (key to stored modification date) after a scan over `es` of
/// an index holding `store`, when the caller stores each item the scan
/// stores and removes the stale keys: entries of counted items stay, and
/// stored items hold their current date.
pub open spec fn index_after(store: Map<Seq<char>, Option<Seq<char>>>, es: Seq<ScanEntry>, force: bool) -> Map<Seq<char>, Option<Seq<char>>> {
    Map::new(
        |k: Seq<char>| (store.dom().contains(k) && eligible_keys(es).contains(k)) || writes_key(es, force, k),
        |k: Seq<char>| if writes_key(es, force, k) { written_date(es, force, k) } else { store[k] },
    )
}

proof fn lemma_same_eligible_keys(a: Seq<ScanEntry>, b: Seq<ScanEntry>)
    requires
        a.len() == b.len(),
        forall|i: int| 0 <= i < a.len() ==> (#[trigger] b[i]).key@ == a[i].key@ && b[i].deleted == a[i].deleted
            && b[i].indexable == a[i].indexable,
    ensures
        eligible_keys(a) == eligible_keys(b),
    decreases a.len(),
{
    if a.len() > 0 {
        assert forall|i: int| 0 <= i < a.drop_last().len() implies (#[trigger] b.drop_last()[i]).key@ == a.drop_last()[i].key@
            && b.drop_last()[i].deleted == a.drop_last()[i].deleted && b.drop_last()[i].indexable == a.drop_last()[i].indexable by {
            assert(b.drop_last()[i] == b[i]);
            assert(a.drop_last()[i] == a[i]);
        }
        lemma_same_eligible_keys(a.drop_last(), b.drop_last());
        assert(b.last() == b[b.len() - 1]);
        assert(a.last() == a[a.len() - 1]);
    }
}

proof fn lemma_no_writes(es: Seq<ScanEntry>, force: bool)
    requires
        forall|i: int| 0 <= i < es.len() ==> !writes(#[trigger] es[i], force),
    ensures
        scan_report(es, force).items_indexed == 0,
        scan_report(es, force).chunks_written == 0,
    decreases es.len(),
{
    if es.len() > 0 {
        assert forall|i: int| 0 <= i < es.drop_last().len() implies !writes(#[trigger] es.drop_last()[i], force) by {
            assert(es.drop_last()[i] == es[i]);
        }
        lemma_no_writes(es.drop_last(), force);
        assert(es.last() == es[es.len() - 1]);
    }
}

/// Law: scanning again a library that has not changed since a scan changes
/// nothing. Take a scan over `es1` of an index holding `store`, and a
/// second scan, not forced, over the same items with the same dates
/// (`es2`), reading the index the first scan left. If every counted item
/// has a modification date, and items the first scan found without text
/// still have none, then the second scan stores no item, indexes nothing,
/// writes no chunk, removes no entry, and leaves the index as it was.
pub proof fn law_unchanged_library_rescan_changes_nothing(
    es1: Seq<ScanEntry>,
    es2: Seq<ScanEntry>,
    store: Map<Seq<char>, Option<Seq<char>>>,
    force1: bool,
    stored_keys2: Seq<Seq<char>>,
)
    requires
        es1.len() == es2.len(),
        es1.len() <= usize::MAX,
        stored_keys2.len() <= usize::MAX,
        forall|i: int, j: int| 0 <= i < j < es1.len() ==> es1[i].key@ != es1[j].key@,
        forall|i: int| 0 <= i < es1.len() ==> (#[trigger] es2[i]).key@ == es1[i].key@ && es2[i].deleted == es1[i].deleted
            && es2[i].indexable == es1[i].indexable && opt_view(es2[i].date_modified) == opt_view(es1[i].date_modified),
        forall|i: int| 0 <= i < es1.len() ==> opt_view((#[trigger] es1[i]).stored_date) == lookup(store, es1[i].key@),
        forall|i: int| 0 <= i < es1.len() ==> opt_view((#[trigger] es2[i]).stored_date) == lookup(index_after(store, es1, force1), es2[i].key@),
        forall|i: int| 0 <= i < es1.len() && eligible(#[trigger] es1[i]) ==> es1[i].date_modified is Some,
        forall|i: int| 0 <= i < es1.len() && entry_decision(#[trigger] es1[i], force1) == ScanDecision::Index && !(es1[i].work is Indexed)
            ==> !(es2[i].work is Indexed),
        forall|k: Seq<char>| #[trigger] stored_keys2.contains(k) ==> index_after(store, es1, force1).dom().contains(k),
    ensures
        forall|i: int| 0 <= i < es2.len() ==> !writes(#[trigger] es2[i], false),
        run_report(es2, stored_keys2, false).items_indexed == 0,
        run_report(es2, stored_keys2, false).chunks_written == 0,
        run_report(es2, stored_keys2, false).items_deleted == 0,
        stale_keys_spec(stored_keys2, eligible_keys(es2)).len() == 0,
        index_after(index_after(store, es1, force1), es2, false) == index_after(store, es1, force1),
{
    let s2 = index_after(store, es1, force1);
    let keys = eligible_keys(es1);
    lemma_same_eligible_keys(es1, es2);
    lemma_eligible_keys_members(es1);
    assert forall|i: int| 0 <= i < es2.len() implies !writes(#[trigger] es2[i], false) by {
        let e1 = es1[i];
        let e2 = es2[i];
        let k = e1.key@;
        if eligible(e1) && !(entry_decision(e1, force1) == ScanDecision::Index && !(e1.work is Indexed)) {
            // The first scan left the item's current date in the index.
            assert(keys.contains(k));
            if writes(e1, force1) {
                assert(writes_key(es1, force1, k));
                let j = choose|j: int| 0 <= j < es1.len() && writes(es1[j], force1) && es1[j].key@ == k;
                if j != i {
                    if j < i {
                        assert(es1[j].key@ != es1[i].key@);
                    } else {
                        assert(es1[i].key@ != es1[j].key@);
                    }
                }
                assert(s2.dom().contains(k));
                assert(s2[k] == opt_view(e1.date_modified));
            } else {
                assert(entry_decision(e1, force1) == ScanDecision::Unchanged);
                assert(lookup(store, k) == opt_view(e1.date_modified));
                assert(store.dom().contains(k));
                if writes_key(es1, force1, k) {
                    let j = choose|j: int| 0 <= j < es1.len() && writes(es1[j], force1) && es1[j].key@ == k;
                    if j < i {
                        assert(es1[j].key@ != es1[i].key@);
                    } else if j > i {
                        assert(es1[i].key@ != es1[j].key@);
                    }
                }
                assert(s2.dom().contains(k));
                assert(s2[k] == store[k]);
            }
            assert(opt_view(e2.stored_date) == opt_view(e2.date_modified));
            assert(entry_decision(e2, false) == ScanDecision::Unchanged);
        }
    }
    lemma_no_writes(es2, false);
    // Every key the second scan reads is one of a counted item.
    assert forall|k: Seq<char>| s2.dom().contains(k) implies keys.contains(k) by {
        if writes_key(es1, force1, k) {
            let j = choose|j: int| 0 <= j < es1.len() && writes(es1[j], force1) && es1[j].key@ == k;
            assert(eligible(es1[j]));
        }
    }
    let pred = |k: Seq<char>| !eligible_keys(es2).contains(k);
    let stale = stored_keys2.filter(pred);
    assert(stale == stale_keys_spec(stored_keys2, eligible_keys(es2)));
    if stale.len() > 0 {
        stored_keys2.lemma_filter_pred(pred, 0);
        assert(stale.contains(stale[0]));
        stored_keys2.lemma_filter_contains_rev(pred, stale[0]);
        assert(s2.dom().contains(stale[0]));
        assert(false);
    }
    assert forall|k: Seq<char>| !writes_key(es2, false, k) by {
        if writes_key(es2, false, k) {
            let j = choose|j: int| 0 <= j < es2.len() && writes(es2[j], false) && es2[j].key@ == k;
            assert(!writes(es2[j], false));
        }
    }
    assert(index_after(s2, es2, false) =~= s2);
}

} // verus!
