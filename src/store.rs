use vstd::prelude::*;

use crate::ensure::{next_phase, phase_action, DocId, Phase, Scope, StoreAction, StoreEvent};
use crate::profile::{apply_upsert, ProfileTable};

verus! {

/// A counter document as the store holds it.
pub struct CounterDoc {
    pub scope: Scope,
    pub namespace: Seq<char>,
    pub counters: Map<Seq<char>, int>,
    /// Whether the document can be read under the expected schema.
    pub readable: bool,
}

/// The state of the document store that the protocol works on.
pub struct StoreModel {
    pub profiles: ProfileTable,
    /// The live counter documents, player and network ones alike, by id.
    pub live: Map<DocId, CounterDoc>,
    /// The quarantined copies of documents that did not fit the schema.
    pub quarantine: Map<DocId, CounterDoc>,
    /// The quarantine ids named by corruption reports, in the order sent.
    pub reports: Seq<DocId>,
    /// The id the store hands out next.
    pub next_id: DocId,
}

pub open spec fn at_pair(d: CounterDoc, scope: Scope, ns: Seq<char>) -> bool {
    d.scope == scope && d.namespace == ns
}

pub open spec fn has_doc(live: Map<DocId, CounterDoc>, scope: Scope, ns: Seq<char>) -> bool {
    exists|id: DocId| live.contains_key(id) && at_pair(#[trigger] live[id], scope, ns)
}

pub open spec fn doc_of(live: Map<DocId, CounterDoc>, scope: Scope, ns: Seq<char>) -> DocId {
    choose|id: DocId| live.contains_key(id) && at_pair(#[trigger] live[id], scope, ns)
}

pub open spec fn at_most_one(live: Map<DocId, CounterDoc>, scope: Scope, ns: Seq<char>) -> bool {
    forall|a: DocId, b: DocId|
        live.contains_key(a) && live.contains_key(b) && at_pair(#[trigger] live[a], scope, ns)
            && at_pair(#[trigger] live[b], scope, ns) ==> a == b
}

/// Exactly one live document for the pair, and it is readable.
pub open spec fn one_readable(live: Map<DocId, CounterDoc>, scope: Scope, ns: Seq<char>) -> bool {
    has_doc(live, scope, ns) && at_most_one(live, scope, ns) && live[doc_of(live, scope, ns)].readable
}

/// Every id in use lies below the next one handed out.
pub open spec fn ids_below_next(s: StoreModel) -> bool {
    &&& forall|id: DocId| #[trigger] s.live.contains_key(id) ==> id < s.next_id
    &&& forall|id: DocId| #[trigger] s.quarantine.contains_key(id) ==> id < s.next_id
}

pub open spec fn empty_doc(scope: Scope, ns: Seq<char>) -> CounterDoc {
    CounterDoc { scope, namespace: ns, counters: Map::empty(), readable: true }
}

/// What the store does for one request of a run on (scope, ns), and what it answers.
pub open spec fn perform(s: StoreModel, scope: Scope, ns: Seq<char>, a: StoreAction) -> (
    StoreModel,
    StoreEvent,
) {
    match a {
        StoreAction::TrackProfile => match scope {
            Scope::Player(p) => (StoreModel { profiles: apply_upsert(s.profiles, p, None), ..s }, StoreEvent::Done),
            Scope::Global => (s, StoreEvent::Done),
        },
        StoreAction::FindDocument => if !has_doc(s.live, scope, ns) {
            (s, StoreEvent::NotFound)
        } else if s.live[doc_of(s.live, scope, ns)].readable {
            (s, StoreEvent::Found)
        } else {
            (s, StoreEvent::ShapeError)
        },
        StoreAction::FetchRaw => if has_doc(s.live, scope, ns) {
            (s, StoreEvent::RawFound(doc_of(s.live, scope, ns)))
        } else {
            (s, StoreEvent::NotFound)
        },
        StoreAction::Quarantine(orig) => if s.live.contains_key(orig) && s.next_id < u128::MAX {
            (
                StoreModel {
                    quarantine: s.quarantine.insert(s.next_id, s.live[orig]),
                    next_id: (s.next_id + 1) as u128,
                    ..s
                },
                StoreEvent::Quarantined(s.next_id),
            )
        } else {
            (s, StoreEvent::Failed)
        },
        StoreAction::DeleteOriginal(orig) => (StoreModel { live: s.live.remove(orig), ..s }, StoreEvent::Done),
        StoreAction::ReportCorruption(q) => (StoreModel { reports: s.reports.push(q), ..s }, StoreEvent::Done),
        StoreAction::WarnMissing => (s, StoreEvent::Done),
        StoreAction::InsertEmpty => if s.next_id < u128::MAX {
            (
                StoreModel {
                    live: s.live.insert(s.next_id, empty_doc(scope, ns)),
                    next_id: (s.next_id + 1) as u128,
                    ..s
                },
                StoreEvent::Done,
            )
        } else {
            (s, StoreEvent::Failed)
        },
    }
}

/// Drives a run from `phase` against the store for at most `fuel` requests.
pub open spec fn run(s: StoreModel, scope: Scope, ns: Seq<char>, phase: Phase, fuel: nat) -> (
    StoreModel,
    Phase,
)
    decreases fuel,
{
    match phase_action(scope, phase) {
        None => (s, phase),
        Some(a) => if fuel == 0 {
            (s, phase)
        } else {
            let (s2, ev) = perform(s, scope, ns, a);
            run(s2, scope, ns, next_phase(scope, phase, ev), (fuel - 1) as nat)
        },
    }
}

/// A whole ensure run on (scope, ns); no run makes more than eight requests.
pub open spec fn ensured(s: StoreModel, scope: Scope, ns: Seq<char>) -> (StoreModel, Phase) {
    run(s, scope, ns, Phase::Start, 8)
}

proof fn lemma_doc_of_unique(live: Map<DocId, CounterDoc>, scope: Scope, ns: Seq<char>, id: DocId)
    requires
        at_most_one(live, scope, ns),
        live.contains_key(id),
        at_pair(live[id], scope, ns),
    ensures
        has_doc(live, scope, ns),
        doc_of(live, scope, ns) == id,
{
    assert(live.contains_key(id) && at_pair(live[id], scope, ns));
}

/// A run on a pair with no live document inserts one empty readable document.
proof fn lemma_ensure_absent(s: StoreModel, scope: Scope, ns: Seq<char>)
    requires
        ids_below_next(s),
        !has_doc(s.live, scope, ns),
        s.next_id < u128::MAX,
    ensures
        ({
            let (t, p) = ensured(s, scope, ns);
            &&& p is Succeeded
            &&& t.live == s.live.insert(s.next_id, empty_doc(scope, ns))
            &&& t.quarantine == s.quarantine
            &&& t.reports == s.reports
            &&& t.next_id == s.next_id + 1
        }),
{
    reveal_with_fuel(run, 9);
}

/// Ensuring a pair twice in a row leaves exactly one live readable document for
/// it after each run, and the second run changes no document.
pub proof fn lemma_ensure_idempotent(s: StoreModel, scope: Scope, ns: Seq<char>)
    requires
        ids_below_next(s),
        at_most_one(s.live, scope, ns),
        s.next_id + 2 < u128::MAX,
    ensures
        ({
            let (t, p) = ensured(s, scope, ns);
            let (u, q) = ensured(t, scope, ns);
            &&& p is Succeeded
            &&& one_readable(t.live, scope, ns)
            &&& q is Succeeded
            &&& one_readable(u.live, scope, ns)
            &&& u.live == t.live
            &&& u.quarantine == t.quarantine
        }),
{
    reveal_with_fuel(run, 9);
    let (t, p) = ensured(s, scope, ns);
    if has_doc(s.live, scope, ns) && !s.live[doc_of(s.live, scope, ns)].readable {
        lemma_ensure_quarantine(s, scope, ns, doc_of(s.live, scope, ns));
    } else if !has_doc(s.live, scope, ns) {
        lemma_ensure_absent(s, scope, ns);
        let n = s.next_id;
        assert(t.live.contains_key(n) && at_pair(t.live[n], scope, ns));
        lemma_doc_of_unique(t.live, scope, ns, n);
    }
    assert(one_readable(t.live, scope, ns));
    let id = doc_of(t.live, scope, ns);
    lemma_doc_of_unique(t.live, scope, ns, id);
}

/// A run on a pair whose one live document does not fit the schema copies it
/// unchanged into quarantine under a new id, deletes the original, reports the
/// quarantine id, and leaves one fresh empty readable document for the pair.
pub proof fn lemma_ensure_quarantine(s: StoreModel, scope: Scope, ns: Seq<char>, orig: DocId)
    requires
        ids_below_next(s),
        at_most_one(s.live, scope, ns),
        s.live.contains_key(orig),
        at_pair(s.live[orig], scope, ns),
        !s.live[orig].readable,
        s.next_id + 2 < u128::MAX,
    ensures
        ({
            let (t, p) = ensured(s, scope, ns);
            let q = s.next_id;
            &&& p is Succeeded
            &&& !s.quarantine.contains_key(q)
            &&& q != orig
            &&& t.quarantine == s.quarantine.insert(q, s.live[orig])
            &&& !t.live.contains_key(orig)
            &&& t.reports == s.reports.push(q)
            &&& one_readable(t.live, scope, ns)
            &&& t.live[doc_of(t.live, scope, ns)] == empty_doc(scope, ns)
        }),
{
    reveal_with_fuel(run, 9);
    lemma_doc_of_unique(s.live, scope, ns, orig);
    let q = s.next_id;
    let n = (q + 1) as u128;
    let (t, p) = ensured(s, scope, ns);
    assert(t.live == s.live.remove(orig).insert(n, empty_doc(scope, ns)));
    assert(t.live.contains_key(n) && at_pair(t.live[n], scope, ns));
    assert(at_most_one(t.live, scope, ns)) by {
        assert forall|a: DocId, b: DocId|
            t.live.contains_key(a) && t.live.contains_key(b) && at_pair(#[trigger] t.live[a], scope, ns)
                && at_pair(#[trigger] t.live[b], scope, ns) implies a == b by {
            if a != n {
                assert(s.live.contains_key(a) && at_pair(s.live[a], scope, ns));
                assert(a == orig);
            }
            if b != n {
                assert(s.live.contains_key(b) && at_pair(s.live[b], scope, ns));
                assert(b == orig);
            }
        }
    }
    lemma_doc_of_unique(t.live, scope, ns, n);
}

/// The value of a counter, an absent one counting as zero.
pub open spec fn counter(c: Map<Seq<char>, int>, stat: Seq<char>) -> int {
    if c.contains_key(stat) {
        c[stat]
    } else {
        0
    }
}

/// The counters after an atomic increment of `stat` by `d`.
pub open spec fn increment(c: Map<Seq<char>, int>, stat: Seq<char>, d: int) -> Map<Seq<char>, int> {
    c.insert(stat, counter(c, stat) + d)
}

/// The counters after increments of `stat` by each of `ds`, in order.
pub open spec fn increment_all(c: Map<Seq<char>, int>, stat: Seq<char>, ds: Seq<int>) -> Map<
    Seq<char>,
    int,
>
    decreases ds.len(),
{
    if ds.len() == 0 {
        c
    } else {
        increment(increment_all(c, stat, ds.drop_last()), stat, ds.last())
    }
}

pub open spec fn sum(ds: Seq<int>) -> int
    decreases ds.len(),
{
    if ds.len() == 0 {
        0
    } else {
        sum(ds.drop_last()) + ds.last()
    }
}

proof fn lemma_increment_all_value(c: Map<Seq<char>, int>, stat: Seq<char>, ds: Seq<int>)
    ensures
        counter(increment_all(c, stat, ds), stat) == counter(c, stat) + sum(ds),
        ds.len() > 0 ==> increment_all(c, stat, ds).contains_key(stat),
        forall|k: Seq<char>| k != stat ==> #[trigger] increment_all(c, stat, ds).contains_key(k)
            == c.contains_key(k),
        forall|k: Seq<char>|
            k != stat && c.contains_key(k) ==> #[trigger] increment_all(c, stat, ds)[k] == c[k],
    decreases ds.len(),
{
    if ds.len() > 0 {
        lemma_increment_all_value(c, stat, ds.drop_last());
    }
}

proof fn lemma_sum_remove(s: Seq<int>, i: int)
    requires
        0 <= i < s.len(),
    ensures
        sum(s) == sum(s.remove(i)) + s[i],
    decreases s.len(),
{
    if i < s.len() - 1 {
        lemma_sum_remove(s.drop_last(), i);
        assert(s.remove(i).drop_last() =~= s.drop_last().remove(i));
        assert(s.remove(i).last() == s.last());
    } else {
        assert(s.remove(i) =~= s.drop_last());
    }
}

proof fn lemma_sum_permutation(a: Seq<int>, b: Seq<int>)
    requires
        a.to_multiset() == b.to_multiset(),
    ensures
        sum(a) == sum(b),
    decreases a.len(),
{
    broadcast use vstd::seq_lib::group_to_multiset_ensures;
    assert(a.len() == a.to_multiset().len() && b.len() == b.to_multiset().len());
    if a.len() == 0 {
    } else {
        let x = a.last();
        assert(a.to_multiset().count(x) > 0);
        assert(b.contains(x));
        let j = b.index_of(x);
        assert(a.remove(a.len() - 1) =~= a.drop_last());
        assert(a.drop_last().to_multiset() == b.remove(j).to_multiset());
        lemma_sum_permutation(a.drop_last(), b.remove(j));
        lemma_sum_remove(b, j);
    }
}

/// Increments of one counter by d1..dn, starting from a fresh document, leave
/// it at their sum, and applying the same deltas in any other order leaves the
/// same counters.
pub proof fn lemma_increments_commute(stat: Seq<char>, ds: Seq<int>, es: Seq<int>)
    requires
        ds.to_multiset() == es.to_multiset(),
    ensures
        counter(increment_all(Map::empty(), stat, ds), stat) == sum(ds),
        increment_all(Map::empty(), stat, ds) == increment_all(Map::empty(), stat, es),
{
    broadcast use vstd::seq_lib::group_to_multiset_ensures;
    let c = Map::<Seq<char>, int>::empty();
    lemma_increment_all_value(c, stat, ds);
    lemma_increment_all_value(c, stat, es);
    lemma_sum_permutation(ds, es);
    assert(ds.len() == ds.to_multiset().len() && es.len() == es.to_multiset().len());
    let l = increment_all(c, stat, ds);
    let r = increment_all(c, stat, es);
    if ds.len() == 0 {
        assert(ds =~= es);
    } else {
        assert(l =~= r) by {
            assert forall|k: Seq<char>| l.contains_key(k) == r.contains_key(k) by {}
            assert forall|k: Seq<char>| l.contains_key(k) implies l[k] == r[k] by {}
        }
    }
}

/// The store after an atomic increment of `stat` by `d` on the pair's document.
pub open spec fn increment_doc(s: StoreModel, scope: Scope, ns: Seq<char>, stat: Seq<char>, d: int) -> StoreModel {
    if has_doc(s.live, scope, ns) {
        let id = doc_of(s.live, scope, ns);
        let doc = s.live[id];
        StoreModel { live: s.live.insert(id, CounterDoc { counters: increment(doc.counters, stat, d), ..doc }), ..s }
    } else {
        s
    }
}

/// The store after increments of `stat` by each of `ds`, in order, on the pair's document.
pub open spec fn increment_doc_all(
    s: StoreModel,
    scope: Scope,
    ns: Seq<char>,
    stat: Seq<char>,
    ds: Seq<int>,
) -> StoreModel
    decreases ds.len(),
{
    if ds.len() == 0 {
        s
    } else {
        increment_doc(increment_doc_all(s, scope, ns, stat, ds.drop_last()), scope, ns, stat, ds.last())
    }
}

proof fn lemma_increment_doc_all(s: StoreModel, scope: Scope, ns: Seq<char>, stat: Seq<char>, ds: Seq<int>)
    requires
        one_readable(s.live, scope, ns),
    ensures
        ({
            let t = increment_doc_all(s, scope, ns, stat, ds);
            let id = doc_of(s.live, scope, ns);
            &&& one_readable(t.live, scope, ns)
            &&& doc_of(t.live, scope, ns) == id
            &&& t.live.dom() == s.live.dom()
            &&& t.live[id].counters == increment_all(s.live[id].counters, stat, ds)
            &&& t.quarantine == s.quarantine
            &&& t.next_id == s.next_id
        }),
    decreases ds.len(),
{
    let id = doc_of(s.live, scope, ns);
    lemma_doc_of_unique(s.live, scope, ns, id);
    if ds.len() > 0 {
        lemma_increment_doc_all(s, scope, ns, stat, ds.drop_last());
        let m = increment_doc_all(s, scope, ns, stat, ds.drop_last());
        let t = increment_doc_all(s, scope, ns, stat, ds);
        assert(t.live == m.live.insert(id, CounterDoc { counters: increment(m.live[id].counters, stat, ds.last()), ..m.live[id] }));
        assert(t.live.dom() =~= s.live.dom());
        assert(at_most_one(t.live, scope, ns)) by {
            assert forall|a: DocId, b: DocId|
                t.live.contains_key(a) && t.live.contains_key(b) && at_pair(#[trigger] t.live[a], scope, ns)
                    && at_pair(#[trigger] t.live[b], scope, ns) implies a == b by {
                assert(m.live.contains_key(a) && at_pair(m.live[a], scope, ns));
                assert(m.live.contains_key(b) && at_pair(m.live[b], scope, ns));
            }
        }
        lemma_doc_of_unique(t.live, scope, ns, id);
    }
}

/// A run on a pair that has one readable document changes no document.
proof fn lemma_ensure_present(s: StoreModel, scope: Scope, ns: Seq<char>)
    requires
        one_readable(s.live, scope, ns),
    ensures
        ensured(s, scope, ns).1 is Succeeded,
        ensured(s, scope, ns).0.live == s.live,
        ensured(s, scope, ns).0.next_id == s.next_id,
        ensured(s, scope, ns).0.quarantine == s.quarantine,
{
    reveal_with_fuel(run, 9);
}

/// Uploading the same increments of one statistic twice for a pair that had
/// no document leaves its one document holding twice their sum: uploads add
/// up and never overwrite.
pub proof fn lemma_uploads_accumulate(s: StoreModel, scope: Scope, ns: Seq<char>, stat: Seq<char>, ds: Seq<int>)
    requires
        ids_below_next(s),
        !has_doc(s.live, scope, ns),
        s.next_id + 2 < u128::MAX,
    ensures
        ({
            let t1 = increment_doc_all(ensured(s, scope, ns).0, scope, ns, stat, ds);
            let t2 = increment_doc_all(ensured(t1, scope, ns).0, scope, ns, stat, ds);
            &&& one_readable(t1.live, scope, ns)
            &&& counter(t1.live[doc_of(t1.live, scope, ns)].counters, stat) == sum(ds)
            &&& one_readable(t2.live, scope, ns)
            &&& counter(t2.live[doc_of(t2.live, scope, ns)].counters, stat) == 2 * sum(ds)
        }),
{
    lemma_ensure_absent(s, scope, ns);
    let e1 = ensured(s, scope, ns).0;
    let n = s.next_id;
    assert(e1.live.contains_key(n) && at_pair(e1.live[n], scope, ns));
    assert(at_most_one(e1.live, scope, ns)) by {
        assert forall|a: DocId, b: DocId|
            e1.live.contains_key(a) && e1.live.contains_key(b) && at_pair(#[trigger] e1.live[a], scope, ns)
                && at_pair(#[trigger] e1.live[b], scope, ns) implies a == b by {
            if a != n {
                assert(s.live.contains_key(a) && at_pair(s.live[a], scope, ns));
            }
            if b != n {
                assert(s.live.contains_key(b) && at_pair(s.live[b], scope, ns));
            }
        }
    }
    lemma_doc_of_unique(e1.live, scope, ns, n);
    lemma_increment_doc_all(e1, scope, ns, stat, ds);
    lemma_increment_all_value(e1.live[n].counters, stat, ds);
    let t1 = increment_doc_all(e1, scope, ns, stat, ds);
    lemma_ensure_present(t1, scope, ns);
    let e2 = ensured(t1, scope, ns).0;
    lemma_increment_doc_all(e2, scope, ns, stat, ds);
    lemma_increment_all_value(e2.live[n].counters, stat, ds);
}

} // verus!
