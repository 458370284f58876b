//! The user-facing resource declaring which image must be kept ready.
//!
//! The controller reads the resource's identity (name, uid, resourceVersion)
//! and its spec; it never writes the resource.  `uid` and `resource_version`
//! are assigned by the cluster, so a freshly deserialized object may lack
//! them; the reconciler requires both to be present (their absence is a
//! platform-contract violation).

use vstd::prelude::*;

verus! {

/// The declaration of the image to keep ready on nodes.
#[derive(Clone, Debug, PartialEq)]
pub struct ReadyImageSpec {
    /// The container image to keep ready on nodes.
    pub image: String,
    /// Optional list of names of secrets to use for pulling the container
    /// image.  Secrets must be in the same namespace as the controller
    /// because the workload objects are created there.
    pub image_pull_secrets: Option<Vec<String>>,
    /// Optional node selector (label key/value constraints) choosing the
    /// nodes to keep the image ready on.  Absent means all nodes.
    pub node_selector: Option<Vec<(String, String)>>,
}

/// Mathematical image of a `ReadyImageSpec`.
pub struct ReadyImageSpecView {
    pub image: Seq<char>,
    pub image_pull_secrets: Option<Seq<Seq<char>>>,
    pub node_selector: Option<Seq<(Seq<char>, Seq<char>)>>,
}

impl DeepView for ReadyImageSpec {
    type V = ReadyImageSpecView;

    open spec fn deep_view(&self) -> ReadyImageSpecView {
        ReadyImageSpecView {
            image: self.image.deep_view(),
            image_pull_secrets: self.image_pull_secrets.deep_view(),
            node_selector: self.node_selector.deep_view(),
        }
    }
}

/// One observed instance of the resource, as handed to the reconciler.
#[derive(Clone, Debug, PartialEq)]
pub struct ReadyImage {
    /// The resource's namespace-scoped name.
    pub name: String,
    /// Cluster-assigned unique identifier; absent only on objects the
    /// cluster has not stored yet.
    pub uid: Option<String>,
    /// Opaque version token, bumped by the cluster on every mutation;
    /// compared only for equality, never ordered.
    pub resource_version: Option<String>,
    /// The desired state declared by the user.
    pub spec: ReadyImageSpec,
}

/// Mathematical image of a `ReadyImage`.
pub struct ReadyImageView {
    pub name: Seq<char>,
    pub uid: Option<Seq<char>>,
    pub resource_version: Option<Seq<char>>,
    pub spec: ReadyImageSpecView,
}

impl DeepView for ReadyImage {
    type V = ReadyImageView;

    open spec fn deep_view(&self) -> ReadyImageView {
        ReadyImageView {
            name: self.name.deep_view(),
            uid: self.uid.deep_view(),
            resource_version: self.resource_version.deep_view(),
            spec: self.spec.deep_view(),
        }
    }
}

impl ReadyImage {
    /// Both cluster-assigned identity fields are present, as the reconciler
    /// requires them to be.
    pub open spec fn has_identity(&self) -> bool {
        &&& self.uid is Some
        &&& self.resource_version is Some
    }
}

impl ReadyImageView {
    /// Both cluster-assigned identity fields are present.
    pub open spec fn has_identity(&self) -> bool {
        &&& self.uid is Some
        &&& self.resource_version is Some
    }
}

} // verus!
