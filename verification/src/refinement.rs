//! The machine refines the model.
//!
//! `Reconciler::step`'s contract fixes which commands a pass issues; the
//! cluster model in `model` gives each mutating command its meaning —
//! `Create` is `apply_create`, one `Delete` removes one name, and
//! `DeleteCollection` of the stale filter is `apply_sweep`.  The theorem
//! here closes the loop: executing the commands of one successful pass,
//! under those meanings and against a freshly listed cluster, yields
//! exactly `reconcile_pass`, with the created object under the fresh
//! generated name and the first listed name as the survivor.  The laws
//! proved of `reconcile_pass` — convergence, idempotence, race safety,
//! stale cleanup — therefore hold of what the machine does.

use vstd::prelude::*;

use crate::model::apply_create;
use crate::model::apply_keep_one;
use crate::model::apply_sweep;
use crate::model::current_names;
use crate::model::lemma_listing_classification;
use crate::model::reconcile_pass;
use crate::model::ClusterView;
use crate::reconcile::spec_step;
use crate::reconcile::spec_sweep_command;
use crate::reconcile::CommandView;
use crate::reconcile::EventView;
use crate::reconcile::PhaseView;
use crate::builder::spec_build;
use crate::resource::ReadyImageView;

verus! {

/// The meaning of the machine's surplus-deletion phase: delete the listed
/// objects `names[next..]` one by one, keeping everything before `next`.
pub open spec fn run_deletes(c: ClusterView, names: Seq<Seq<char>>, next: int) -> ClusterView
    decreases names.len() - next,
{
    if 0 <= next < names.len() {
        run_deletes(c.remove(names[next]), names, next + 1)
    } else {
        c
    }
}

/// The cluster after the driver executes every command of one successful
/// pass that observed the listing `names`: create on zero matches, no
/// action on one, the surplus deletions on several — and always the
/// stale sweep.
pub open spec fn machine_pass(
    rimg: ReadyImageView,
    c: ClusterView,
    names: Seq<Seq<char>>,
    fresh: Seq<char>,
) -> ClusterView {
    let uid = rimg.uid.unwrap();
    let ver = rimg.resource_version.unwrap();
    let acted = if names.len() == 0 {
        apply_create(c, fresh, uid, ver)
    } else if names.len() == 1 {
        c
    } else {
        run_deletes(c, names, 1)
    };
    apply_sweep(acted, uid, ver)
}

/// `machine_pass` interprets exactly the commands the machine issues: on
/// the listed count the machine creates the built object, mutates
/// nothing, or starts deleting the surplus names after the first — in
/// every case followed by the stale sweep on entering the sweeping phase.
pub proof fn lemma_machine_pass_follows_the_machine(
    sleeper_image: Seq<char>,
    rimg: ReadyImageView,
    names: Seq<Seq<char>>,
    next: usize,
)
    requires
        rimg.has_identity(),
    ensures
        names.len() == 0 ==> spec_step(
            sleeper_image,
            PhaseView::Listing { rimg },
            EventView::ListOk { names },
        ) == (
            PhaseView::Creating { rimg },
            CommandView::Create { object: spec_build(rimg, sleeper_image) },
        ),
        names.len() == 1 ==> spec_step(
            sleeper_image,
            PhaseView::Listing { rimg },
            EventView::ListOk { names },
        ) == (PhaseView::Sweeping { rimg }, spec_sweep_command(rimg)),
        names.len() > 1 ==> spec_step(
            sleeper_image,
            PhaseView::Listing { rimg },
            EventView::ListOk { names },
        ) == (
            PhaseView::DeletingExtras { rimg, names, next: 1 },
            CommandView::Delete { name: names[1] },
        ),
        1 <= next < names.len() ==> spec_step(
            sleeper_image,
            PhaseView::DeletingExtras { rimg, names, next },
            EventView::DeleteOk,
        ) == (if next + 1 < names.len() {
            (
                PhaseView::DeletingExtras { rimg, names, next: (next + 1) as usize },
                CommandView::Delete { name: names[next + 1] },
            )
        } else {
            (PhaseView::Sweeping { rimg }, spec_sweep_command(rimg))
        }),
{
}

/// Deleting `names[next..]` one by one removes exactly those keys.
proof fn lemma_run_deletes_removes_tail(c: ClusterView, names: Seq<Seq<char>>, next: int)
    requires
        0 <= next <= names.len(),
    ensures
        run_deletes(c, names, next) == c.remove_keys(names.skip(next).to_set()),
    decreases names.len() - next,
{
    if next < names.len() {
        let head = names[next];
        lemma_run_deletes_removes_tail(c.remove(head), names, next + 1);
        assert(names.skip(next).to_set() =~= names.skip(next + 1).to_set().insert(head)) by {
            assert forall|x: Seq<char>| names.skip(next).to_set().contains(x) implies names.skip(
                next + 1,
            ).to_set().insert(head).contains(x) by {
                let i = choose|i: int|
                    0 <= i < names.skip(next).len() && names.skip(next)[i] == x;
                if i > 0 {
                    assert(names.skip(next + 1)[i - 1] == x);
                }
            }
            assert forall|x: Seq<char>|
                names.skip(next + 1).to_set().insert(head).contains(x) implies names.skip(
                next,
            ).to_set().contains(x) by {
                if x == head {
                    assert(names.skip(next)[0] == x);
                } else {
                    let i = choose|i: int|
                        0 <= i < names.skip(next + 1).len() && #[trigger] names.skip(next + 1)[i]
                            == x;
                    assert(names.skip(next)[i + 1] == x);
                }
            }
        }
        assert(c.remove(head).remove_keys(names.skip(next + 1).to_set()) =~= c.remove_keys(
            names.skip(next).to_set(),
        ));
    } else {
        assert(names.skip(next).to_set() =~= Set::<Seq<char>>::empty());
        assert(c.remove_keys(Set::<Seq<char>>::empty()) =~= c);
    }
}

/// When the listing enumerates the current names without repetition and
/// holds more than one of them, deleting every listed name but the first
/// is exactly the model's keep-one-survivor step.
proof fn lemma_tail_removal_is_keep_one(
    c: ClusterView,
    uid: Seq<char>,
    ver: Seq<char>,
    names: Seq<Seq<char>>,
)
    requires
        names.no_duplicates(),
        names.to_set() == current_names(c, uid, ver),
        names.len() > 1,
    ensures
        c.remove_keys(names.skip(1).to_set()) == apply_keep_one(c, uid, ver, names[0]),
{
    let tail = names.skip(1).to_set();
    assert forall|n: Seq<char>| c.dom().contains(n) implies (tail.contains(n) == (c[n] == (
        uid,
        ver,
    ) && n != names[0])) by {
        if tail.contains(n) {
            let i = choose|i: int| 0 <= i < names.skip(1).len() && names.skip(1)[i] == n;
            assert(names[i + 1] == n);
            assert(names.to_set().contains(n)) by {
                assert(names[i + 1] == n);
            }
            assert(current_names(c, uid, ver).contains(n));
            assert(n != names[0]);
        }
        if c[n] == (uid, ver) && n != names[0] {
            assert(current_names(c, uid, ver).contains(n));
            assert(names.to_set().contains(n));
            let j = choose|j: int| 0 <= j < names.len() && names[j] == n;
            assert(j >= 1);
            assert(names.skip(1)[j - 1] == n);
            assert(tail.contains(n));
        }
    }
    assert(c.remove_keys(tail) =~= apply_keep_one(c, uid, ver, names[0]));
}

/// One successful pass of the machine, with each command given its model
/// meaning, is exactly one model reconciliation pass whose survivor is
/// the first listed name (or the created object, when none was listed).
pub proof fn lemma_machine_refines_model(
    rimg: ReadyImageView,
    c: ClusterView,
    names: Seq<Seq<char>>,
    fresh: Seq<char>,
)
    requires
        rimg.has_identity(),
        c.dom().finite(),
        names.no_duplicates(),
        names.to_set() == current_names(c, rimg.uid.unwrap(), rimg.resource_version.unwrap()),
        !c.dom().contains(fresh),
    ensures
        machine_pass(rimg, c, names, fresh) == reconcile_pass(
            c,
            rimg.uid.unwrap(),
            rimg.resource_version.unwrap(),
            fresh,
            if names.len() > 0 {
                names[0]
            } else {
                fresh
            },
        ),
{
    let uid = rimg.uid.unwrap();
    let ver = rimg.resource_version.unwrap();
    lemma_listing_classification(c, uid, ver, names);
    if names.len() > 1 {
        names.unique_seq_to_set();
        lemma_run_deletes_removes_tail(c, names, 1);
        lemma_tail_removal_is_keep_one(c, uid, ver, names);
    }
}

} // verus!
