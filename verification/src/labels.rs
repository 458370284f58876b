//! The label/versioning scheme.
//!
//! Every workload object the controller creates carries exactly two labels:
//! the controller key, valued with the owning resource's uid, and the
//! version key, valued with the resource's resourceVersion at creation
//! time.  These two labels are the only state the reconciler relies on to
//! classify existing objects as current, stale, or foreign.  Freshness is
//! equality of version strings; no numeric ordering is assumed.

use vstd::prelude::*;
use vstd::string::StringExecFns;

use crate::resource::ReadyImage;

verus! {

/// The label key whose value is the owning resource's uid.
pub open spec fn spec_controller_key() -> Seq<char> {
    "readyimage/controller"@
}

/// The label key whose value is the resource generation that produced the
/// object.
pub open spec fn spec_version_key() -> Seq<char> {
    "readyimage/version"@
}

/// The controller-ownership label key, as written to the cluster.
pub fn controller_key() -> (r: &'static str)
    ensures
        r@ == spec_controller_key(),
{
    "readyimage/controller"
}

/// The generation label key, as written to the cluster.
pub fn version_key() -> (r: &'static str)
    ensures
        r@ == spec_version_key(),
{
    "readyimage/version"
}

/// The two-entry label set for a given uid and resourceVersion, in the
/// order it is written to the object.
pub open spec fn spec_make_labels(uid: Seq<char>, version: Seq<char>) -> Seq<
    (Seq<char>, Seq<char>),
> {
    seq![(spec_controller_key(), uid), (spec_version_key(), version)]
}

/// The two label keys are distinct, so the label set is a well-formed map.
pub proof fn lemma_label_keys_distinct()
    ensures
        spec_controller_key() != spec_version_key(),
{
    reveal_strlit("readyimage/controller");
    reveal_strlit("readyimage/version");
    assert(spec_controller_key().len() != spec_version_key().len());
}

/// Build the label set identifying `rimg`'s current generation.
pub fn make_labels(rimg: &ReadyImage) -> (r: Vec<(String, String)>)
    requires
        rimg.has_identity(),
    ensures
        r.deep_view() == spec_make_labels(
            rimg.deep_view().uid.unwrap(),
            rimg.deep_view().resource_version.unwrap(),
        ),
{
    let uid = rimg.uid.as_ref().unwrap().clone();
    let version = rimg.resource_version.as_ref().unwrap().clone();
    let mut r: Vec<(String, String)> = Vec::new();
    r.push((String::from_str(controller_key()), uid));
    r.push((String::from_str(version_key()), version));
    proof {
        assert(r.deep_view() =~~= spec_make_labels(
            rimg.deep_view().uid.unwrap(),
            rimg.deep_view().resource_version.unwrap(),
        ));
    }
    r
}

/// The list filter that selects this resource's objects of the current
/// generation: `controller-key=<uid>,version-key=<version>`.
pub open spec fn spec_current_selector(uid: Seq<char>, version: Seq<char>) -> Seq<char> {
    spec_controller_key() + "="@ + uid + ","@ + spec_version_key() + "="@ + version
}

/// The filter that selects this resource's objects of any *other*
/// generation: `controller-key=<uid>,version-key!=<version>`.
pub open spec fn spec_stale_selector(uid: Seq<char>, version: Seq<char>) -> Seq<char> {
    spec_controller_key() + "="@ + uid + ","@ + spec_version_key() + "!="@ + version
}

/// Build the current-generation list filter for the given identity.
pub fn current_selector(uid: &String, version: &String) -> (r: String)
    ensures
        r@ == spec_current_selector(uid@, version@),
{
    let r = String::from_str(controller_key()).concat("=").concat(uid.as_str()).concat(
        ",",
    ).concat(version_key()).concat("=").concat(version.as_str());
    proof {
        assert(r@ =~= spec_current_selector(uid@, version@));
    }
    r
}

/// Build the stale-generation list filter for the given identity.
pub fn stale_selector(uid: &String, version: &String) -> (r: String)
    ensures
        r@ == spec_stale_selector(uid@, version@),
{
    let r = String::from_str(controller_key()).concat("=").concat(uid.as_str()).concat(
        ",",
    ).concat(version_key()).concat("!=").concat(version.as_str());
    proof {
        assert(r@ =~= spec_stale_selector(uid@, version@));
    }
    r
}

} // verus!
