//! A mathematical model of the reconciler's effect on the cluster.
//!
//! The reconciler reads nothing of a workload object but its name and its
//! two labels, so a cluster state is modeled as a map from object name to
//! the pair (controller label value, version label value).  The spec
//! functions here give the meaning of the machine's mutating commands —
//! create, delete all but one survivor, sweep stale generations — and the
//! lemmas prove the loop's governing properties over them: convergence,
//! idempotence, safety of the concurrent-creation race, and stale cleanup.
//!
//! Creation is modeled at the generation level: creating the desired
//! object for a generation that already has a current object answers
//! "already exists" and leaves the cluster unchanged, which the
//! reconciler treats as success.

use vstd::prelude::*;

verus! {

/// A cluster state: each existing workload object's name, mapped to its
/// (controller label value, version label value) pair.
pub type ClusterView = Map<Seq<char>, (Seq<char>, Seq<char>)>;

/// The names of `uid`'s objects of the current generation `ver`.
pub open spec fn current_names(c: ClusterView, uid: Seq<char>, ver: Seq<char>) -> Set<Seq<char>> {
    c.dom().filter(|n: Seq<char>| c[n] == (uid, ver))
}

/// The names of `uid`'s objects of any other generation.
pub open spec fn stale_names(c: ClusterView, uid: Seq<char>, ver: Seq<char>) -> Set<Seq<char>> {
    c.dom().filter(|n: Seq<char>| c[n].0 == uid && c[n].1 != ver)
}

/// Creating the desired object for generation `ver` under the fresh name
/// `fresh`.  When a current object already exists the cluster answers
/// "already exists" and nothing changes; the reconciler counts that as
/// success.
pub open spec fn apply_create(
    c: ClusterView,
    fresh: Seq<char>,
    uid: Seq<char>,
    ver: Seq<char>,
) -> ClusterView {
    if current_names(c, uid, ver).is_empty() {
        c.insert(fresh, (uid, ver))
    } else {
        c
    }
}

/// Deleting every current-generation object except the chosen survivor
/// (the pathological several-matches branch).  A "not found" answer along
/// the way changes nothing and also counts as success.
pub open spec fn apply_keep_one(
    c: ClusterView,
    uid: Seq<char>,
    ver: Seq<char>,
    survivor: Seq<char>,
) -> ClusterView {
    Map::new(
        |n: Seq<char>| c.dom().contains(n) && (c[n] != (uid, ver) || n == survivor),
        |n: Seq<char>| c[n],
    )
}

/// The unconditional sweep: deleting every object owned by `uid` whose
/// generation is not `ver`.
pub open spec fn apply_sweep(c: ClusterView, uid: Seq<char>, ver: Seq<char>) -> ClusterView {
    Map::new(
        |n: Seq<char>| c.dom().contains(n) && !(c[n].0 == uid && c[n].1 != ver),
        |n: Seq<char>| c[n],
    )
}

/// One successful reconciliation pass over a freshly listed cluster:
/// classify the current-generation objects by count, create under a fresh
/// name on zero, keep a chosen survivor on several (the machine keeps the
/// first listed name; any choice converges), and always sweep the stale
/// generations afterwards.
pub open spec fn reconcile_pass(
    c: ClusterView,
    uid: Seq<char>,
    ver: Seq<char>,
    fresh: Seq<char>,
    survivor: Seq<char>,
) -> ClusterView {
    let cur = current_names(c, uid, ver);
    let acted = if cur.is_empty() {
        apply_create(c, fresh, uid, ver)
    } else if cur.len() == 1 {
        c
    } else {
        apply_keep_one(c, uid, ver, survivor)
    };
    apply_sweep(acted, uid, ver)
}

/// The sweep removes every stale object and no current one.
pub proof fn lemma_sweep_facts(c: ClusterView, uid: Seq<char>, ver: Seq<char>)
    ensures
        stale_names(apply_sweep(c, uid, ver), uid, ver).is_empty(),
        current_names(apply_sweep(c, uid, ver), uid, ver) == current_names(c, uid, ver),
{
    let r = apply_sweep(c, uid, ver);
    assert(stale_names(r, uid, ver) =~= Set::<Seq<char>>::empty());
    assert(current_names(r, uid, ver) =~= current_names(c, uid, ver));
}

/// The set of current-generation names is finite whenever the cluster is.
pub proof fn lemma_current_finite(c: ClusterView, uid: Seq<char>, ver: Seq<char>)
    requires
        c.dom().finite(),
    ensures
        current_names(c, uid, ver).finite(),
        current_names(c, uid, ver).len() <= c.dom().len(),
{
    c.dom().lemma_len_filter(|n: Seq<char>| c[n] == (uid, ver));
}

/// Convergence: one successful pass leaves exactly one object bearing the
/// controller label and the current version label, and none bearing the
/// controller label with a different version label.  On an empty list the
/// survivor is the created object; otherwise it is one of the observed
/// ones.
pub proof fn lemma_convergence(
    c: ClusterView,
    uid: Seq<char>,
    ver: Seq<char>,
    fresh: Seq<char>,
    survivor: Seq<char>,
)
    requires
        c.dom().finite(),
        !c.dom().contains(fresh),
        current_names(c, uid, ver).len() > 1 ==> current_names(c, uid, ver).contains(survivor),
    ensures
        current_names(reconcile_pass(c, uid, ver, fresh, survivor), uid, ver).len() == 1,
        stale_names(reconcile_pass(c, uid, ver, fresh, survivor), uid, ver).is_empty(),
        current_names(c, uid, ver).is_empty() ==> current_names(
            reconcile_pass(c, uid, ver, fresh, survivor),
            uid,
            ver,
        ) == set![fresh],
        current_names(c, uid, ver).len() > 1 ==> current_names(
            reconcile_pass(c, uid, ver, fresh, survivor),
            uid,
            ver,
        ) == set![survivor],
        !current_names(c, uid, ver).is_empty() ==> current_names(
            reconcile_pass(c, uid, ver, fresh, survivor),
            uid,
            ver,
        ) <= current_names(c, uid, ver),
{
    let cur = current_names(c, uid, ver);
    lemma_current_finite(c, uid, ver);
    if cur.is_empty() {
        let acted = apply_create(c, fresh, uid, ver);
        assert(current_names(acted, uid, ver) =~= set![fresh]);
        assert(set![fresh].len() == 1);
        lemma_sweep_facts(acted, uid, ver);
    } else if cur.len() == 1 {
        lemma_sweep_facts(c, uid, ver);
    } else {
        let acted = apply_keep_one(c, uid, ver, survivor);
        assert(current_names(acted, uid, ver) =~= set![survivor]);
        assert(set![survivor].len() == 1);
        lemma_sweep_facts(acted, uid, ver);
        assert(current_names(reconcile_pass(c, uid, ver, fresh, survivor), uid, ver) <= cur);
    }
}

/// Idempotence: a second pass over the state a successful pass produced
/// changes nothing — it finds exactly one current object, creates nothing,
/// deletes nothing, and its sweep finds nothing stale.
pub proof fn lemma_idempotence(
    c: ClusterView,
    uid: Seq<char>,
    ver: Seq<char>,
    fresh1: Seq<char>,
    survivor1: Seq<char>,
    fresh2: Seq<char>,
    survivor2: Seq<char>,
)
    requires
        c.dom().finite(),
        !c.dom().contains(fresh1),
        current_names(c, uid, ver).len() > 1 ==> current_names(c, uid, ver).contains(survivor1),
    ensures
        reconcile_pass(
            reconcile_pass(c, uid, ver, fresh1, survivor1),
            uid,
            ver,
            fresh2,
            survivor2,
        ) == reconcile_pass(c, uid, ver, fresh1, survivor1),
{
    let r1 = reconcile_pass(c, uid, ver, fresh1, survivor1);
    lemma_convergence(c, uid, ver, fresh1, survivor1);
    let cur2 = current_names(r1, uid, ver);
    assert(!cur2.is_empty()) by {
        if cur2.is_empty() {
            assert(cur2 == Set::<Seq<char>>::empty());
        }
    }
    assert(apply_sweep(r1, uid, ver) =~= r1);
}

/// The concurrent-creation race is safe: two passes of the same resource
/// both observe zero current objects and both try to create.  The first
/// creation succeeds; the second answers "already exists", which is
/// success and leaves the cluster unchanged — and after both sweeps
/// exactly one current object remains.
pub proof fn lemma_create_race(
    c: ClusterView,
    uid: Seq<char>,
    ver: Seq<char>,
    n1: Seq<char>,
    n2: Seq<char>,
)
    requires
        c.dom().finite(),
        current_names(c, uid, ver).is_empty(),
        !c.dom().contains(n1),
    ensures
        apply_create(apply_create(c, n1, uid, ver), n2, uid, ver) == apply_create(c, n1, uid, ver),
        current_names(
            apply_sweep(
                apply_sweep(apply_create(apply_create(c, n1, uid, ver), n2, uid, ver), uid, ver),
                uid,
                ver,
            ),
            uid,
            ver,
        ) == set![n1],
{
    let c1 = apply_create(c, n1, uid, ver);
    assert(current_names(c1, uid, ver) =~= set![n1]);
    assert(current_names(c1, uid, ver).contains(n1));
    let c2 = apply_create(c1, n2, uid, ver);
    assert(c2 == c1);
    lemma_sweep_facts(c1, uid, ver);
    lemma_sweep_facts(apply_sweep(c1, uid, ver), uid, ver);
}

/// Stale cleanup: after reconciling a resource whose version advanced to
/// `v2`, no object owned by its uid is labeled with the old version `v1`,
/// while exactly one object labeled `v2` exists.
pub proof fn lemma_stale_cleanup(
    c: ClusterView,
    uid: Seq<char>,
    v1: Seq<char>,
    v2: Seq<char>,
    fresh: Seq<char>,
    survivor: Seq<char>,
)
    requires
        c.dom().finite(),
        !c.dom().contains(fresh),
        current_names(c, uid, v2).len() > 1 ==> current_names(c, uid, v2).contains(survivor),
        v1 != v2,
    ensures
        forall|n: Seq<char>|
            reconcile_pass(c, uid, v2, fresh, survivor).dom().contains(n) ==> reconcile_pass(
                c,
                uid,
                v2,
                fresh,
                survivor,
            )[n] != (uid, v1),
        current_names(reconcile_pass(c, uid, v2, fresh, survivor), uid, v2).len() == 1,
{
    lemma_convergence(c, uid, v2, fresh, survivor);
    let r = reconcile_pass(c, uid, v2, fresh, survivor);
    assert forall|n: Seq<char>| r.dom().contains(n) implies r[n] != (uid, v1) by {
        if r[n] == (uid, v1) {
            assert(stale_names(r, uid, v2).contains(n));
        }
    }
}

/// The machine classifies a fresh listing by count; this agrees with the
/// model's classification by set cardinality whenever the listing
/// enumerates the current-generation names without repetition — as a
/// fresh, label-filtered list does.  In the several-matches case the name
/// the machine keeps, the first listed one, is a current object.
pub proof fn lemma_listing_classification(
    c: ClusterView,
    uid: Seq<char>,
    ver: Seq<char>,
    names: Seq<Seq<char>>,
)
    requires
        c.dom().finite(),
        names.no_duplicates(),
        names.to_set() == current_names(c, uid, ver),
    ensures
        (names.len() == 0) == current_names(c, uid, ver).is_empty(),
        (names.len() == 1) == (current_names(c, uid, ver).len() == 1),
        names.len() > 1 ==> current_names(c, uid, ver).contains(names[0]),
{
    names.unique_seq_to_set();
    let cur = current_names(c, uid, ver);
    lemma_current_finite(c, uid, ver);
    if names.len() == 0 {
        assert(cur =~= Set::<Seq<char>>::empty());
    } else {
        assert(names.to_set().contains(names[0]));
        assert(!cur.is_empty());
    }
}

} // verus!
