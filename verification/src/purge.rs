//! Clearing and purging an investigation: which resources are untagged,
//! which snapshots and evidence objects are deleted, and how the planned
//! changes are listed for confirmation.
use vstd::prelude::*;
use crate::tag::{ids, keep, resource_ids, select, Resource};
use crate::text::{concat_str, copy_strings, pad, pad_left, views};

verus! {

broadcast use vstd::seq_lib::group_to_multiset_ensures;

/// The tag keys that an investigation puts on resources and that clearing removes.
pub open spec fn investigation_tag_keys() -> Seq<Seq<char>> {
    seq!["CLAIRE"@, "InvestigationId"@]
}

/// The tag keys removed from untagged resources: `CLAIRE` and `InvestigationId`.
pub fn untag_keys() -> (r: Vec<String>)
    ensures
        views(r@) == investigation_tag_keys(),
{
    let mut r: Vec<String> = Vec::new();
    r.push(crate::text::owned("CLAIRE"));
    r.push(crate::text::owned("InvestigationId"));
    assert(views(r@) =~= investigation_tag_keys());
    r
}

/// The ids to untag, or nothing when there is no resource (no request is sent then).
pub open spec fn untag_target(s: Seq<Resource>) -> Option<Seq<Seq<char>>> {
    if s.len() == 0 {
        None
    } else {
        Some(ids(s))
    }
}

/// The views of an optional list of strings.
pub open spec fn opt_views(v: Option<Vec<String>>) -> Option<Seq<Seq<char>>> {
    match v {
        Some(v) => Some(views(v@)),
        None => None,
    }
}

/// Which of the given resources are untagged: the ids of all of them, or
/// nothing when the list is empty.
pub fn untag_request(resources: &Vec<Resource>) -> (r: Option<Vec<String>>)
    ensures
        opt_views(r) == untag_target(resources@),
{
    if resources.len() == 0 {
        None
    } else {
        Some(resource_ids(resources))
    }
}

/// Clearing an investigation concerns the tagged resources that are not
/// snapshots; the snapshots keep their tags so that a purge finds them.
pub fn clear_targets(resources: &Vec<Resource>) -> (r: Vec<Resource>)
    ensures
        r@ == keep(resources@, false),
{
    select(resources, false)
}

/// The order in which a purge lists and handles resources: those it only
/// untags first, then those it deletes, each group in its original order
/// (a stable sort by "is deletable").
pub open spec fn purge_order(s: Seq<Resource>) -> Seq<Resource> {
    keep(s, false) + keep(s, true)
}

/// Every resource that `keep(s, b)` keeps has `snapshot() == b`, and every
/// such resource of `s` is kept: the selection of snapshots (or of the
/// other resources) is exact.
pub proof fn lemma_keep_exact(s: Seq<Resource>, b: bool)
    ensures
        forall|i: int| 0 <= i < keep(s, b).len() ==> (#[trigger] keep(s, b)[i]).snapshot() == b,
        forall|i: int| 0 <= i < keep(s, b).len() ==> s.contains(#[trigger] keep(s, b)[i]),
        forall|i: int| 0 <= i < s.len() && (#[trigger] s[i]).snapshot() == b ==> keep(s, b).contains(s[i]),
        keep(s, b).len() <= s.len(),
    decreases s.len(),
{
    if s.len() > 0 {
        let p = s.drop_last();
        lemma_keep_exact(p, b);
        assert forall|i: int| 0 <= i < keep(s, b).len() implies s.contains(#[trigger] keep(s, b)[i]) by {
            if i < keep(p, b).len() {
                let j = choose|j: int| 0 <= j < p.len() && p[j] == keep(p, b)[i];
                assert(s[j] == p[j]);
            } else {
                assert(s[s.len() - 1] == s.last());
            }
        }
        assert forall|i: int| 0 <= i < s.len() && (#[trigger] s[i]).snapshot() == b implies keep(s, b).contains(s[i]) by {
            if i < s.len() - 1 {
                assert(p[i] == s[i]);
                let j = choose|j: int| 0 <= j < keep(p, b).len() && keep(p, b)[j] == p[i];
                assert(keep(s, b)[j] == keep(p, b)[j]);
            } else {
                assert(keep(s, b)[keep(s, b).len() - 1] == s.last());
            }
        }
    }
}

/// Splitting resources into the non-snapshots and the snapshots loses and
/// adds nothing: together they are the original resources as a multiset.
pub proof fn lemma_keep_partition(s: Seq<Resource>)
    ensures
        keep(s, false).to_multiset().add(keep(s, true).to_multiset()) =~= s.to_multiset(),
    decreases s.len(),
{
    broadcast use vstd::multiset::group_multiset_axioms;
    if s.len() == 0 {
        assert(keep(s, false) =~= Seq::<Resource>::empty());
        assert(keep(s, true) =~= Seq::<Resource>::empty());
    } else {
        let p = s.drop_last();
        lemma_keep_partition(p);
        assert(s =~= p.push(s.last()));
    }
}

/// A purge handles every tagged resource exactly once: its order is a
/// permutation of the resources it was given.
pub proof fn lemma_purge_order_permutes(s: Seq<Resource>)
    ensures
        purge_order(s).to_multiset() == s.to_multiset(),
        purge_order(s).len() == s.len(),
{
    vstd::seq_lib::lemma_multiset_commutative(keep(s, false), keep(s, true));
    lemma_keep_partition(s);
    assert(purge_order(s).to_multiset().len() == purge_order(s).len());
    assert(s.to_multiset().len() == s.len());
}

/// In purge order every resource that is only untagged comes before every
/// resource that is deleted.
pub proof fn lemma_purge_order_untag_first(s: Seq<Resource>)
    ensures
        forall|i: int, j: int|
            0 <= i < j < purge_order(s).len() && (#[trigger] purge_order(s)[i]).snapshot()
                ==> (#[trigger] purge_order(s)[j]).snapshot(),
{
    lemma_keep_exact(s, false);
    lemma_keep_exact(s, true);
    let a = keep(s, false);
    let b = keep(s, true);
    assert forall|i: int, j: int|
        0 <= i < j < purge_order(s).len() && (#[trigger] purge_order(s)[i]).snapshot()
            implies (#[trigger] purge_order(s)[j]).snapshot() by {
        if i < a.len() {
            assert(purge_order(s)[i] == a[i]);
        }
        assert(j >= a.len());
        assert(purge_order(s)[j] == b[j - a.len()]);
    }
}

/// Clearing never touches a snapshot, and touches every other resource: the
/// resources it untags are exactly the non-snapshot ones.
pub proof fn lemma_clear_spares_snapshots(s: Seq<Resource>)
    ensures
        forall|i: int| 0 <= i < keep(s, false).len() ==> !(#[trigger] keep(s, false)[i]).snapshot(),
        forall|i: int| 0 <= i < s.len() && !(#[trigger] s[i]).snapshot() ==> keep(s, false).contains(s[i]),
{
    lemma_keep_exact(s, false);
}

/// A purge untags every resource it was given, and deletes exactly the
/// snapshots among them.
pub proof fn lemma_purge_targets(s: Seq<Resource>)
    ensures
        s.len() > 0 ==> untag_target(purge_order(s)) == Some(ids(purge_order(s))),
        purge_order(s).to_multiset() == s.to_multiset(),
        forall|i: int| 0 <= i < keep(purge_order(s), true).len()
            ==> (#[trigger] keep(purge_order(s), true)[i]).snapshot(),
        forall|i: int| 0 <= i < s.len() && (#[trigger] s[i]).snapshot()
            ==> keep(purge_order(s), true).contains(s[i]),
{
    lemma_purge_order_permutes(s);
    lemma_keep_exact(purge_order(s), true);
    assert forall|i: int| 0 <= i < s.len() && (#[trigger] s[i]).snapshot()
        implies keep(purge_order(s), true).contains(s[i]) by {
        assert(s.to_multiset().count(s[i]) > 0);
        assert(purge_order(s).contains(s[i]));
        let j = choose|j: int| 0 <= j < purge_order(s).len() && purge_order(s)[j] == s[i];
        assert(purge_order(s)[j].snapshot());
    }
}

/// The word that says what a purge does to a resource.
pub open spec fn action(r: Resource) -> Seq<char> {
    if r.snapshot() {
        "Delete"@
    } else {
        "Untag"@
    }
}

/// The confirmation line of a resource: the action right-aligned in ten
/// characters, a space, and the resource's own line.
pub open spec fn resource_entry(r: Resource) -> Seq<char> {
    pad_left(action(r), 10) + " "@ + r.line()
}

/// The confirmation line of an evidence object.
pub open spec fn object_entry(key: Seq<char>) -> Seq<char> {
    "Delete "@ + key
}

/// The confirmation lines of a purge: one per resource, then one per object.
pub open spec fn listing(resources: Seq<Resource>, keys: Seq<Seq<char>>) -> Seq<Seq<char>> {
    resources.map_values(|r: Resource| resource_entry(r)) + keys.map_values(
        |k: Seq<char>| object_entry(k),
    )
}

/// What a purge will do, computed from the tagged resources and the keys of
/// the evidence objects of an investigation.
pub struct PurgePlan {
    /// The resources, in purge order.
    pub resources: Vec<Resource>,
    /// The keys of the evidence objects.
    pub object_keys: Vec<String>,
}

impl PurgePlan {
    /// The plan for these resources and objects.
    pub fn new(resources: &Vec<Resource>, object_keys: &Vec<String>) -> (r: PurgePlan)
        ensures
            r.resources@ == purge_order(resources@),
            r.object_keys@ == object_keys@,
    {
        let mut first = select(resources, false);
        let mut then = select(resources, true);
        first.append(&mut then);
        PurgePlan { resources: first, object_keys: copy_strings(object_keys) }
    }

    /// There is nothing to purge.
    pub fn is_empty(&self) -> (r: bool)
        ensures
            r == (self.resources@.len() == 0 && self.object_keys@.len() == 0),
    {
        self.resources.len() == 0 && self.object_keys.len() == 0
    }

    /// The lines that list the planned changes.
    pub fn listing(&self) -> (r: Vec<String>)
        ensures
            views(r@) == listing(self.resources@, views(self.object_keys@)),
    {
        let mut r: Vec<String> = Vec::new();
        let mut i: usize = 0;
        while i < self.resources.len()
            invariant
                i <= self.resources.len(),
                r@.len() == i,
                forall|k: int| 0 <= k < i ==> #[trigger] r@[k]@ == resource_entry(self.resources@[k]),
            decreases self.resources.len() - i,
        {
            let res = &self.resources[i];
            let word = if res.is_deletable() {
                "Delete"
            } else {
                "Untag"
            };
            let mut line = pad(word, 10);
            line.append(" ");
            let rl = res.to_line();
            line.append(rl.as_str());
            r.push(line);
            i = i + 1;
        }
        let n = self.resources.len();
        let mut j: usize = 0;
        while j < self.object_keys.len()
            invariant
                n == self.resources@.len(),
                j <= self.object_keys.len(),
                r@.len() == n + j,
                forall|k: int| 0 <= k < n ==> #[trigger] r@[k]@ == resource_entry(self.resources@[k]),
                forall|k: int|
                    0 <= k < j ==> #[trigger] r@[n + k]@ == object_entry(self.object_keys@[k]@),
            decreases self.object_keys.len() - j,
        {
            r.push(concat_str("Delete ", self.object_keys[j].as_str()));
            j = j + 1;
        }
        let ghost want = listing(self.resources@, views(self.object_keys@));
        assert forall|k: int| 0 <= k < r@.len() implies #[trigger] views(r@)[k] == want[k] by {
            if k >= n {
                assert(r@[n + (k - n)]@ == object_entry(self.object_keys@[k - n]@));
            }
        }
        assert(views(r@) =~= want);
        r
    }

    /// The untag request of the purge: all its resources, snapshots included.
    pub fn untag_request(&self) -> (r: Option<Vec<String>>)
        ensures
            opt_views(r) == untag_target(self.resources@),
    {
        untag_request(&self.resources)
    }

    /// The snapshots that the purge deletes, or nothing when there is none.
    pub fn snapshots_to_delete(&self) -> (r: Option<Vec<String>>)
        ensures
            opt_views(r) == untag_target(keep(self.resources@, true)),
    {
        let snapshots = select(&self.resources, true);
        untag_request(&snapshots)
    }

    /// The evidence objects that the purge deletes, or nothing when there is none.
    pub fn objects_to_delete(&self) -> (r: Option<Vec<String>>)
        ensures
            opt_views(r) == (if self.object_keys@.len() == 0 {
                None
            } else {
                Some(views(self.object_keys@))
            }),
    {
        if self.object_keys.len() == 0 {
            None
        } else {
            Some(copy_strings(&self.object_keys))
        }
    }
}

} // verus!
