//! The desired-state builder.
//!
//! `build_daemon_set` is a pure, deterministic function from a resource and
//! the data-plane helper image reference to the complete per-node workload
//! object the controller wants to exist: an init step that copies the
//! helper binary into a small in-memory volume, a main step that runs the
//! user's image with an always-pull policy and blocks on the copied binary,
//! the owner reference back to the resource, and the two-label scheme on
//! the object, its selector, and its pod template identically.
//!
//! The unverified driver converts a `WorkloadObject` field by field into
//! the cluster API's object type before submitting it.

use vstd::prelude::*;
use vstd::string::StringExecFns;

use crate::labels::make_labels;
use crate::labels::spec_make_labels;
use crate::resource::ReadyImage;
use crate::resource::ReadyImageView;

verus! {

/// Back-pointer from a created workload object to the resource that caused
/// its creation; the platform's garbage collector cascades deletion along
/// it.
#[derive(Clone, Debug, PartialEq)]
pub struct OwnerReference {
    pub api_version: String,
    pub kind: String,
    pub name: String,
    pub uid: String,
    pub controller: bool,
    pub block_owner_deletion: bool,
}

/// Mathematical image of an `OwnerReference`.
#[verifier::ext_equal]
pub struct OwnerReferenceView {
    pub api_version: Seq<char>,
    pub kind: Seq<char>,
    pub name: Seq<char>,
    pub uid: Seq<char>,
    pub controller: bool,
    pub block_owner_deletion: bool,
}

impl DeepView for OwnerReference {
    type V = OwnerReferenceView;

    open spec fn deep_view(&self) -> OwnerReferenceView {
        OwnerReferenceView {
            api_version: self.api_version.deep_view(),
            kind: self.kind.deep_view(),
            name: self.name.deep_view(),
            uid: self.uid.deep_view(),
            controller: self.controller,
            block_owner_deletion: self.block_owner_deletion,
        }
    }
}

/// The shared scratch volume: memory-backed, bounded size.
#[derive(Clone, Debug, PartialEq)]
pub struct Volume {
    pub name: String,
    pub medium: String,
    pub size_limit: String,
}

/// Mathematical image of a `Volume`.
#[verifier::ext_equal]
pub struct VolumeView {
    pub name: Seq<char>,
    pub medium: Seq<char>,
    pub size_limit: Seq<char>,
}

impl DeepView for Volume {
    type V = VolumeView;

    open spec fn deep_view(&self) -> VolumeView {
        VolumeView {
            name: self.name.deep_view(),
            medium: self.medium.deep_view(),
            size_limit: self.size_limit.deep_view(),
        }
    }
}

/// A mount of the shared volume inside a container.
#[derive(Clone, Debug, PartialEq)]
pub struct VolumeMount {
    pub name: String,
    pub mount_path: String,
}

/// Mathematical image of a `VolumeMount`.
#[verifier::ext_equal]
pub struct VolumeMountView {
    pub name: Seq<char>,
    pub mount_path: Seq<char>,
}

impl DeepView for VolumeMount {
    type V = VolumeMountView;

    open spec fn deep_view(&self) -> VolumeMountView {
        VolumeMountView { name: self.name.deep_view(), mount_path: self.mount_path.deep_view() }
    }
}

/// Fixed, minimal compute limits for both steps; the point of the workload
/// is image residency, not computation.
#[derive(Clone, Debug, PartialEq)]
pub struct ResourceLimits {
    pub cpu: String,
    pub memory: String,
}

/// Mathematical image of a `ResourceLimits`.
#[verifier::ext_equal]
pub struct ResourceLimitsView {
    pub cpu: Seq<char>,
    pub memory: Seq<char>,
}

impl DeepView for ResourceLimits {
    type V = ResourceLimitsView;

    open spec fn deep_view(&self) -> ResourceLimitsView {
        ResourceLimitsView { cpu: self.cpu.deep_view(), memory: self.memory.deep_view() }
    }
}

/// One container of the workload's pod template.
#[derive(Clone, Debug, PartialEq)]
pub struct Container {
    pub name: String,
    pub image: String,
    pub image_pull_policy: Option<String>,
    pub command: Vec<String>,
    pub volume_mounts: Vec<VolumeMount>,
    pub limits: ResourceLimits,
}

/// Mathematical image of a `Container`.
#[verifier::ext_equal]
pub struct ContainerView {
    pub name: Seq<char>,
    pub image: Seq<char>,
    pub image_pull_policy: Option<Seq<char>>,
    pub command: Seq<Seq<char>>,
    pub volume_mounts: Seq<VolumeMountView>,
    pub limits: ResourceLimitsView,
}

impl DeepView for Container {
    type V = ContainerView;

    open spec fn deep_view(&self) -> ContainerView {
        ContainerView {
            name: self.name.deep_view(),
            image: self.image.deep_view(),
            image_pull_policy: self.image_pull_policy.deep_view(),
            command: self.command.deep_view(),
            volume_mounts: self.volume_mounts.deep_view(),
            limits: self.limits.deep_view(),
        }
    }
}

/// The complete desired per-node workload object, as the controller wants
/// it to exist in the cluster.
#[derive(Clone, Debug, PartialEq)]
pub struct WorkloadObject {
    /// Prefix for the cluster-generated unique name: `<resource name>-`.
    pub generate_name: String,
    /// The two-label scheme on the object itself.
    pub labels: Vec<(String, String)>,
    /// Owner references; always exactly the one back to the resource.
    pub owner_references: Vec<OwnerReference>,
    /// The label selector used to manage the fleet of pods.
    pub selector: Vec<(String, String)>,
    /// Labels on the pod template; must equal `selector` exactly.
    pub template_labels: Vec<(String, String)>,
    /// The single init step that stages the helper binary.
    pub init_containers: Vec<Container>,
    /// The single main step that pulls and holds the user's image.
    pub containers: Vec<Container>,
    /// Pull credentials, propagated verbatim from the resource.
    pub image_pull_secrets: Option<Vec<String>>,
    /// The single shared scratch volume.
    pub volumes: Vec<Volume>,
    /// Node constraints, propagated verbatim from the resource.
    pub node_selector: Option<Vec<(String, String)>>,
}

/// Mathematical image of a `WorkloadObject`.
#[verifier::ext_equal]
pub struct WorkloadObjectView {
    pub generate_name: Seq<char>,
    pub labels: Seq<(Seq<char>, Seq<char>)>,
    pub owner_references: Seq<OwnerReferenceView>,
    pub selector: Seq<(Seq<char>, Seq<char>)>,
    pub template_labels: Seq<(Seq<char>, Seq<char>)>,
    pub init_containers: Seq<ContainerView>,
    pub containers: Seq<ContainerView>,
    pub image_pull_secrets: Option<Seq<Seq<char>>>,
    pub volumes: Seq<VolumeView>,
    pub node_selector: Option<Seq<(Seq<char>, Seq<char>)>>,
}

impl DeepView for WorkloadObject {
    type V = WorkloadObjectView;

    open spec fn deep_view(&self) -> WorkloadObjectView {
        WorkloadObjectView {
            generate_name: self.generate_name.deep_view(),
            labels: self.labels.deep_view(),
            owner_references: self.owner_references.deep_view(),
            selector: self.selector.deep_view(),
            template_labels: self.template_labels.deep_view(),
            init_containers: self.init_containers.deep_view(),
            containers: self.containers.deep_view(),
            image_pull_secrets: self.image_pull_secrets.deep_view(),
            volumes: self.volumes.deep_view(),
            node_selector: self.node_selector.deep_view(),
        }
    }
}

/// The resource kind's API group/version, as written into owner references.
pub open spec fn spec_api_version() -> Seq<char> {
    "qualified.io/v1alpha1"@
}

/// The resource kind's name, as written into owner references.
pub open spec fn spec_kind() -> Seq<char> {
    "ReadyImage"@
}

/// The owner reference `build_daemon_set` attaches: a controlling,
/// deletion-blocking back-pointer to the resource.
pub open spec fn spec_owner_reference(rimg: ReadyImageView) -> OwnerReferenceView {
    OwnerReferenceView {
        api_version: spec_api_version(),
        kind: spec_kind(),
        name: rimg.name,
        uid: rimg.uid.unwrap(),
        controller: true,
        block_owner_deletion: true,
    }
}

/// The shared volume: a memory-backed scratch space of a few megabytes.
pub open spec fn spec_volume() -> VolumeView {
    VolumeView { name: "sleeper"@, medium: "Memory"@, size_limit: "5Mi"@ }
}

/// The fixed compute limits on both steps.
pub open spec fn spec_limits() -> ResourceLimitsView {
    ResourceLimitsView { cpu: "1m"@, memory: "20M"@ }
}

/// The single mount of the shared volume used by both steps.
pub open spec fn spec_volume_mounts() -> Seq<VolumeMountView> {
    seq![VolumeMountView { name: "sleeper"@, mount_path: "/drop/"@ }]
}

/// The init step: runs the helper image and asks it to copy its own binary
/// into the shared volume, then exit.
pub open spec fn spec_init_container(sleeper_image: Seq<char>) -> ContainerView {
    ContainerView {
        name: "copy-sleeper"@,
        image: sleeper_image,
        image_pull_policy: None,
        command: seq!["/sleeper"@, "/drop/sleeper"@],
        volume_mounts: spec_volume_mounts(),
        limits: spec_limits(),
    }
}

/// The main step: runs the user's image with an always-pull policy (the
/// pull is the point of this controller) and executes the copied helper
/// binary with no arguments, which blocks indefinitely and keeps the
/// image's layers resident on the node.
pub open spec fn spec_main_container(image: Seq<char>) -> ContainerView {
    ContainerView {
        name: "image"@,
        image: image,
        image_pull_policy: Some("Always"@),
        command: seq!["/drop/sleeper"@],
        volume_mounts: spec_volume_mounts(),
        limits: spec_limits(),
    }
}

/// The complete desired workload object for `rimg`'s current generation.
pub open spec fn spec_build(rimg: ReadyImageView, sleeper_image: Seq<char>) -> WorkloadObjectView {
    let labels = spec_make_labels(rimg.uid.unwrap(), rimg.resource_version.unwrap());
    WorkloadObjectView {
        generate_name: rimg.name + "-"@,
        labels: labels,
        owner_references: seq![spec_owner_reference(rimg)],
        selector: labels,
        template_labels: labels,
        init_containers: seq![spec_init_container(sleeper_image)],
        containers: seq![spec_main_container(rimg.spec.image)],
        image_pull_secrets: rimg.spec.image_pull_secrets,
        volumes: seq![spec_volume()],
        node_selector: rimg.spec.node_selector,
    }
}

/// Copy a vector of strings, preserving its mathematical contents.
fn clone_string_vec(v: &Vec<String>) -> (r: Vec<String>)
    ensures
        r.deep_view() == v.deep_view(),
{
    let r = v.clone();
    proof {
        assert(r.deep_view() =~~= v.deep_view());
    }
    r
}

/// Copy a vector of key/value pairs, preserving its mathematical contents.
fn clone_pairs(v: &Vec<(String, String)>) -> (r: Vec<(String, String)>)
    ensures
        r.deep_view() == v.deep_view(),
{
    let mut r: Vec<(String, String)> = Vec::new();
    let mut i: usize = 0;
    while i < v.len()
        invariant
            i <= v.len(),
            r.deep_view() == v.deep_view().take(i as int),
        decreases v.len() - i,
    {
        let pair = (v[i].0.clone(), v[i].1.clone());
        proof {
            assert(pair.deep_view() == v.deep_view()[i as int]);
        }
        let ghost prev = r.deep_view();
        r.push(pair);
        i = i + 1;
        proof {
            assert(r.deep_view() =~~= prev.push(pair.deep_view()));
            assert(v.deep_view().take(i as int) =~~= v.deep_view().take(i - 1).push(
                v.deep_view()[i - 1],
            ));
            assert(r.deep_view() =~~= v.deep_view().take(i as int));
        }
    }
    proof {
        assert(r.deep_view() =~~= v.deep_view());
    }
    r
}

/// Build the owner reference pointing back at `rimg`.
pub fn to_owner_reference(rimg: &ReadyImage) -> (r: OwnerReference)
    requires
        rimg.uid is Some,
    ensures
        r.deep_view() == spec_owner_reference(rimg.deep_view()),
{
    OwnerReference {
        api_version: String::from_str("qualified.io/v1alpha1"),
        kind: String::from_str("ReadyImage"),
        name: rimg.name.clone(),
        uid: rimg.uid.as_ref().unwrap().clone(),
        controller: true,
        block_owner_deletion: true,
    }
}

/// The single mount of the shared volume.
fn build_volume_mounts() -> (r: Vec<VolumeMount>)
    ensures
        r.deep_view() == spec_volume_mounts(),
{
    let mut r: Vec<VolumeMount> = Vec::new();
    r.push(
        VolumeMount { name: String::from_str("sleeper"), mount_path: String::from_str("/drop/") },
    );
    proof {
        assert(r.deep_view() =~~= spec_volume_mounts());
    }
    r
}

/// The fixed compute limits.
fn build_limits() -> (r: ResourceLimits)
    ensures
        r.deep_view() == spec_limits(),
{
    ResourceLimits { cpu: String::from_str("1m"), memory: String::from_str("20M") }
}

/// The init step staging the helper binary into the shared volume.
fn build_init_container(sleeper_image: &str) -> (c: Container)
    ensures
        c.deep_view() == spec_init_container(sleeper_image@),
{
    let mut command: Vec<String> = Vec::new();
    command.push(String::from_str("/sleeper"));
    command.push(String::from_str("/drop/sleeper"));
    let c = Container {
        name: String::from_str("copy-sleeper"),
        image: String::from_str(sleeper_image),
        image_pull_policy: None,
        command,
        volume_mounts: build_volume_mounts(),
        limits: build_limits(),
    };
    proof {
        assert(c.deep_view() =~~= spec_init_container(sleeper_image@));
    }
    c
}

/// The main step pulling and holding the user's image.
fn build_main_container(image: &String) -> (c: Container)
    ensures
        c.deep_view() == spec_main_container(image@),
{
    let mut command: Vec<String> = Vec::new();
    command.push(String::from_str("/drop/sleeper"));
    let c = Container {
        name: String::from_str("image"),
        image: image.clone(),
        image_pull_policy: Some(String::from_str("Always")),
        command,
        volume_mounts: build_volume_mounts(),
        limits: build_limits(),
    };
    proof {
        assert(c.deep_view() =~~= spec_main_container(image@));
    }
    c
}

/// Build the complete desired workload object for `rimg`'s current
/// generation.  Deterministic: the result is a function of the two
/// arguments alone, and the pod-template labels and the selector equal the
/// object's labels exactly.
pub fn build_daemon_set(rimg: &ReadyImage, sleeper_image: &str) -> (w: WorkloadObject)
    requires
        rimg.has_identity(),
    ensures
        w.deep_view() == spec_build(rimg.deep_view(), sleeper_image@),
        w.deep_view().selector == w.deep_view().labels,
        w.deep_view().template_labels == w.deep_view().labels,
{
    let labels = make_labels(rimg);
    let selector = make_labels(rimg);
    let template_labels = make_labels(rimg);
    let mut owner_references: Vec<OwnerReference> = Vec::new();
    owner_references.push(to_owner_reference(rimg));
    let mut init_containers: Vec<Container> = Vec::new();
    init_containers.push(build_init_container(sleeper_image));
    let mut containers: Vec<Container> = Vec::new();
    containers.push(build_main_container(&rimg.spec.image));
    let mut volumes: Vec<Volume> = Vec::new();
    volumes.push(
        Volume {
            name: String::from_str("sleeper"),
            medium: String::from_str("Memory"),
            size_limit: String::from_str("5Mi"),
        },
    );
    let image_pull_secrets = match &rimg.spec.image_pull_secrets {
        Some(v) => Some(clone_string_vec(v)),
        None => None,
    };
    let node_selector = match &rimg.spec.node_selector {
        Some(v) => Some(clone_pairs(v)),
        None => None,
    };
    let w = WorkloadObject {
        generate_name: rimg.name.clone().concat("-"),
        labels,
        owner_references,
        selector,
        template_labels,
        init_containers,
        containers,
        image_pull_secrets,
        volumes,
        node_selector,
    };
    proof {
        assert(w.deep_view() =~~= spec_build(rimg.deep_view(), sleeper_image@));
    }
    w
}

/// Builder determinism: the desired state is a function of the resource
/// and the helper image reference alone, and within it the pod-template
/// labels and the fleet selector equal the object's labels exactly.
pub proof fn lemma_builder_deterministic(
    rimg1: ReadyImageView,
    rimg2: ReadyImageView,
    sleeper1: Seq<char>,
    sleeper2: Seq<char>,
)
    requires
        rimg1 == rimg2,
        sleeper1 == sleeper2,
    ensures
        spec_build(rimg1, sleeper1) == spec_build(rimg2, sleeper2),
        spec_build(rimg1, sleeper1).selector == spec_build(rimg1, sleeper1).labels,
        spec_build(rimg1, sleeper1).template_labels == spec_build(rimg1, sleeper1).labels,
{
}

} // verus!
