use ready_image::builder::build_daemon_set;
use ready_image::builder::to_owner_reference;
use ready_image::resource::ReadyImage;
use ready_image::resource::ReadyImageSpec;

const SLEEPER: &str = "example.com/sleeper:2.0";

fn sample_resource() -> ReadyImage {
    ReadyImage {
        name: "app".to_string(),
        uid: Some("abc".to_string()),
        resource_version: Some("5".to_string()),
        spec: ReadyImageSpec {
            image: "example.com/app:1.0".to_string(),
            image_pull_secrets: None,
            node_selector: None,
        },
    }
}

#[test]
fn builder_is_deterministic() {
    let rimg = sample_resource();
    let first = build_daemon_set(&rimg, SLEEPER);
    let second = build_daemon_set(&rimg, SLEEPER);
    assert_eq!(first, second);
}

#[test]
fn selector_and_template_labels_equal_object_labels() {
    let w = build_daemon_set(&sample_resource(), SLEEPER);
    assert_eq!(w.selector, w.labels);
    assert_eq!(w.template_labels, w.labels);
    assert_eq!(w.labels.len(), 2);
    assert_eq!(w.labels[0].0, "readyimage/controller");
    assert_eq!(w.labels[0].1, "abc");
    assert_eq!(w.labels[1].0, "readyimage/version");
    assert_eq!(w.labels[1].1, "5");
}

#[test]
fn generated_name_uses_the_resource_name_as_prefix() {
    let w = build_daemon_set(&sample_resource(), SLEEPER);
    assert_eq!(w.generate_name, "app-");
}

#[test]
fn owner_reference_points_back_at_the_resource() {
    let o = to_owner_reference(&sample_resource());
    assert_eq!(o.api_version, "qualified.io/v1alpha1");
    assert_eq!(o.kind, "ReadyImage");
    assert_eq!(o.name, "app");
    assert_eq!(o.uid, "abc");
    assert!(o.controller);
    assert!(o.block_owner_deletion);
    let w = build_daemon_set(&sample_resource(), SLEEPER);
    assert_eq!(w.owner_references, vec![o]);
}

#[test]
fn init_step_copies_the_helper_into_the_shared_volume() {
    let w = build_daemon_set(&sample_resource(), SLEEPER);
    assert_eq!(w.init_containers.len(), 1);
    let init = &w.init_containers[0];
    assert_eq!(init.name, "copy-sleeper");
    assert_eq!(init.image, SLEEPER);
    assert_eq!(init.image_pull_policy, None);
    assert_eq!(init.command, vec!["/sleeper".to_string(), "/drop/sleeper".to_string()]);
    assert_eq!(init.volume_mounts.len(), 1);
    assert_eq!(init.volume_mounts[0].name, "sleeper");
    assert_eq!(init.volume_mounts[0].mount_path, "/drop/");
    assert_eq!(init.limits.cpu, "1m");
    assert_eq!(init.limits.memory, "20M");
}

#[test]
fn main_step_always_pulls_and_blocks_on_the_copied_helper() {
    let w = build_daemon_set(&sample_resource(), SLEEPER);
    assert_eq!(w.containers.len(), 1);
    let main = &w.containers[0];
    assert_eq!(main.name, "image");
    assert_eq!(main.image, "example.com/app:1.0");
    assert_eq!(main.image_pull_policy, Some("Always".to_string()));
    assert_eq!(main.command, vec!["/drop/sleeper".to_string()]);
    assert_eq!(main.volume_mounts, w.init_containers[0].volume_mounts);
    assert_eq!(main.limits.cpu, "1m");
    assert_eq!(main.limits.memory, "20M");
}

#[test]
fn shared_volume_is_memory_backed_and_bounded() {
    let w = build_daemon_set(&sample_resource(), SLEEPER);
    assert_eq!(w.volumes.len(), 1);
    assert_eq!(w.volumes[0].name, "sleeper");
    assert_eq!(w.volumes[0].medium, "Memory");
    assert_eq!(w.volumes[0].size_limit, "5Mi");
}

#[test]
fn secrets_and_node_selector_propagate_verbatim() {
    let mut rimg = sample_resource();
    rimg.spec.image_pull_secrets = Some(vec!["pull-cred".to_string()]);
    rimg.spec.node_selector = Some(vec![("zone".to_string(), "east".to_string())]);
    let w = build_daemon_set(&rimg, SLEEPER);
    assert_eq!(w.image_pull_secrets, Some(vec!["pull-cred".to_string()]));
    assert_eq!(w.node_selector, Some(vec![("zone".to_string(), "east".to_string())]));
    let plain = build_daemon_set(&sample_resource(), SLEEPER);
    assert_eq!(plain.image_pull_secrets, None);
    assert_eq!(plain.node_selector, None);
}
