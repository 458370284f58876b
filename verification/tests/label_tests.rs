use ready_image::labels::controller_key;
use ready_image::labels::current_selector;
use ready_image::labels::make_labels;
use ready_image::labels::stale_selector;
use ready_image::labels::version_key;
use ready_image::resource::ReadyImage;
use ready_image::resource::ReadyImageSpec;

fn sample_resource() -> ReadyImage {
    ReadyImage {
        name: "app".to_string(),
        uid: Some("abc".to_string()),
        resource_version: Some("5".to_string()),
        spec: ReadyImageSpec {
            image: "example.com/app:1.0".to_string(),
            image_pull_secrets: None,
            node_selector: None,
        },
    }
}

#[test]
fn label_keys_are_the_documented_ones() {
    assert_eq!(controller_key(), "readyimage/controller");
    assert_eq!(version_key(), "readyimage/version");
}

#[test]
fn make_labels_pairs_uid_and_version() {
    let labels = make_labels(&sample_resource());
    assert_eq!(labels.len(), 2);
    assert_eq!(labels[0].0, "readyimage/controller");
    assert_eq!(labels[0].1, "abc");
    assert_eq!(labels[1].0, "readyimage/version");
    assert_eq!(labels[1].1, "5");
}

#[test]
fn current_selector_filters_on_both_labels() {
    let s = current_selector(&"abc".to_string(), &"5".to_string());
    assert_eq!(s, "readyimage/controller=abc,readyimage/version=5");
}

#[test]
fn stale_selector_excludes_the_current_version() {
    let s = stale_selector(&"abc".to_string(), &"5".to_string());
    assert_eq!(s, "readyimage/controller=abc,readyimage/version!=5");
}
