use vstd::prelude::*;

verus! {

/// A stored counter value: an integer, or a float held as its IEEE-754 bits.
#[derive(PartialEq, Eq, Structural, Clone, Copy, Debug)]
pub enum StatValue {
    Integer(i64),
    RealBits(u64),
}

/// The counters of one namespace, as one counter document holds them.
pub struct NamespaceStats {
    pub namespace: String,
    pub stats: Vec<(String, StatValue)>,
}

/// The counters by namespace that a sequence of documents gives, a later
/// document replacing an earlier one of the same namespace.
pub open spec fn by_namespace(docs: Seq<NamespaceStats>) -> Map<Seq<char>, NamespaceStats>
    decreases docs.len(),
{
    if docs.len() == 0 {
        Map::empty()
    } else {
        by_namespace(docs.drop_last()).insert(docs.last().namespace@, docs.last())
    }
}

pub open spec fn distinct_namespaces(docs: Seq<NamespaceStats>) -> bool {
    forall|i: int, j: int|
        0 <= i < j < docs.len() ==> #[trigger] docs[i].namespace@ != #[trigger] docs[j].namespace@
}

proof fn lemma_by_namespace_keys(docs: Seq<NamespaceStats>, k: Seq<char>)
    ensures
        by_namespace(docs).contains_key(k) <==> exists|i: int|
            0 <= i < docs.len() && #[trigger] docs[i].namespace@ == k,
    decreases docs.len(),
{
    if docs.len() > 0 {
        let pre = docs.drop_last();
        lemma_by_namespace_keys(pre, k);
        if by_namespace(pre).contains_key(k) {
            let i = choose|i: int| 0 <= i < pre.len() && #[trigger] pre[i].namespace@ == k;
            assert(docs[i].namespace@ == k);
        }
        if exists|i: int| 0 <= i < docs.len() && #[trigger] docs[i].namespace@ == k {
            let i = choose|i: int| 0 <= i < docs.len() && #[trigger] docs[i].namespace@ == k;
            if i < docs.len() - 1 {
                assert(pre[i].namespace@ == k);
            }
        }
    }
}

/// Whether `r` holds a document of namespace `ns`, at the index returned.
fn find_namespace(r: &Vec<NamespaceStats>, ns: &String) -> (idx: Option<usize>)
    ensures
        idx matches Some(i) ==> i < r@.len() && r@[i as int].namespace@ == ns@,
        idx is None ==> forall|i: int| 0 <= i < r@.len() ==> #[trigger] r@[i].namespace@ != ns@,
{
    let mut i: usize = 0;
    while i < r.len()
        invariant
            i <= r@.len(),
            forall|j: int| 0 <= j < i ==> #[trigger] r@[j].namespace@ != ns@,
        decreases r@.len() - i,
    {
        if r[i].namespace == *ns {
            return Some(i);
        }
        i = i + 1;
    }
    None
}

/// Folds the counter documents found for a player into counters by namespace.
/// A player without a profile has no stats at all (`None`), which is not the
/// same as a known player with no counters yet (`Some` of nothing).
pub fn collect_stats(profile_known: bool, docs: Vec<NamespaceStats>) -> (r: Option<
    Vec<NamespaceStats>,
>)
    ensures
        r is None <==> !profile_known,
        r matches Some(v) ==> by_namespace(v@) == by_namespace(docs@) && distinct_namespaces(v@),
        profile_known && docs@.len() == 0 ==> (r matches Some(v) && v@.len() == 0),
{
    if !profile_known {
        return None;
    }
    let ghost all = docs@;
    let mut rest = docs;
    let mut out: Vec<NamespaceStats> = Vec::new();
    while rest.len() > 0
        invariant
            all.len() == 0 ==> out@.len() == 0,
            rest@.len() <= all.len(),
            distinct_namespaces(out@),
            by_namespace(all) == by_namespace(rest@).union_prefer_right(by_namespace(out@)),
        decreases rest@.len(),
    {
        let ghost pre = rest@;
        let d = rest.pop().unwrap();
        assert(rest@ == pre.drop_last());
        let ghost k = d.namespace@;
        proof {
            lemma_by_namespace_keys(out@, k);
        }
        match find_namespace(&out, &d.namespace) {
            Some(_) => {
                assert(by_namespace(out@).contains_key(k));
                assert(by_namespace(pre).union_prefer_right(by_namespace(out@))
                    =~= by_namespace(rest@).union_prefer_right(by_namespace(out@)));
            },
            None => {
                let ghost old_out = out@;
                out.push(d);
                assert(out@.drop_last() == old_out);
                assert(by_namespace(pre).union_prefer_right(by_namespace(old_out))
                    =~= by_namespace(rest@).union_prefer_right(by_namespace(out@)));
                assert(distinct_namespaces(out@)) by {
                    assert forall|i: int, j: int| 0 <= i < j < out@.len() implies
                        #[trigger] out@[i].namespace@ != #[trigger] out@[j].namespace@ by {
                        if j == out@.len() - 1 {
                            assert(old_out[i].namespace@ != k);
                        } else {
                            assert(old_out[i].namespace@ != old_out[j].namespace@);
                        }
                    }
                }
            },
        }
    }
    assert(by_namespace(rest@) =~= Map::empty());
    assert(by_namespace(all) =~= by_namespace(out@));
    Some(out)
}

} // verus!
