use ready_image::reconcile::classify_create_failure;
use ready_image::reconcile::classify_delete_failure;
use ready_image::reconcile::error_policy_action;
use ready_image::reconcile::Action;
use ready_image::reconcile::Command;
use ready_image::reconcile::Error;
use ready_image::reconcile::Event;
use ready_image::reconcile::Phase;
use ready_image::reconcile::Reconciler;
use ready_image::resource::ReadyImage;
use ready_image::resource::ReadyImageSpec;

const SLEEPER: &str = "example.com/sleeper:2.0";

fn sample_resource(version: &str) -> ReadyImage {
    ReadyImage {
        name: "app".to_string(),
        uid: Some("abc".to_string()),
        resource_version: Some(version.to_string()),
        spec: ReadyImageSpec {
            image: "example.com/app:1.0".to_string(),
            image_pull_secrets: None,
            node_selector: None,
        },
    }
}

fn reconciler() -> Reconciler {
    Reconciler::new(SLEEPER.to_string())
}

#[test]
fn pass_starts_by_loading_the_resource() {
    let r = reconciler();
    let (phase, command) = r.start();
    assert_eq!(phase, Phase::Loading);
    assert_eq!(command, Command::LoadResource);
}

#[test]
fn first_pass_creates_then_sweeps_then_finishes() {
    let r = reconciler();
    let (phase, _) = r.start();

    let (phase, command) =
        r.step(phase, Event::ResourceFound { resource: sample_resource("5") });
    assert_eq!(
        command,
        Command::List { selector: "readyimage/controller=abc,readyimage/version=5".to_string() }
    );

    let (phase, command) = r.step(phase, Event::ListOk { names: vec![] });
    let object = match command {
        Command::Create { object } => object,
        other => panic!("expected a create command, got {:?}", other),
    };
    assert_eq!(object.labels.len(), 2);
    assert_eq!(object.labels[0].1, "abc");
    assert_eq!(object.labels[1].1, "5");
    assert_eq!(object.init_containers[0].image, SLEEPER);
    assert_eq!(
        object.init_containers[0].command,
        vec!["/sleeper".to_string(), "/drop/sleeper".to_string()]
    );
    assert_eq!(object.containers[0].image, "example.com/app:1.0");
    assert_eq!(object.containers[0].image_pull_policy, Some("Always".to_string()));
    assert_eq!(object.containers[0].command, vec!["/drop/sleeper".to_string()]);

    let (phase, command) = r.step(phase, Event::CreateOk);
    assert_eq!(
        command,
        Command::DeleteCollection {
            selector: "readyimage/controller=abc,readyimage/version!=5".to_string()
        }
    );

    let (phase, command) = r.step(phase, Event::SweepOk);
    assert_eq!(phase, Phase::Done { action: Action { requeue_after_seconds: None } });
    assert_eq!(command, Command::Finish);
}

#[test]
fn second_pass_with_one_object_issues_no_create_or_delete() {
    let r = reconciler();
    let (phase, _) = r.start();
    let (phase, _) = r.step(phase, Event::ResourceFound { resource: sample_resource("5") });
    let (phase, command) = r.step(phase, Event::ListOk { names: vec!["app-x1y2z".to_string()] });
    assert_eq!(
        command,
        Command::DeleteCollection {
            selector: "readyimage/controller=abc,readyimage/version!=5".to_string()
        }
    );
    let (phase, command) = r.step(phase, Event::SweepOk);
    assert_eq!(phase, Phase::Done { action: Action { requeue_after_seconds: None } });
    assert_eq!(command, Command::Finish);
}

#[test]
fn new_version_lists_and_sweeps_against_the_new_token() {
    let r = reconciler();
    let (phase, _) = r.start();
    let (phase, command) =
        r.step(phase, Event::ResourceFound { resource: sample_resource("6") });
    assert_eq!(
        command,
        Command::List { selector: "readyimage/controller=abc,readyimage/version=6".to_string() }
    );
    let (phase, command) = r.step(phase, Event::ListOk { names: vec![] });
    let object = match command {
        Command::Create { object } => object,
        other => panic!("expected a create command, got {:?}", other),
    };
    assert_eq!(object.labels[1].1, "6");
    let (_, command) = r.step(phase, Event::CreateOk);
    assert_eq!(
        command,
        Command::DeleteCollection {
            selector: "readyimage/controller=abc,readyimage/version!=6".to_string()
        }
    );
}

#[test]
fn losing_the_creation_race_is_success() {
    let r = reconciler();
    let (phase, _) = r.start();
    let (phase, _) = r.step(phase, Event::ResourceFound { resource: sample_resource("5") });
    let (phase, _) = r.step(phase, Event::ListOk { names: vec![] });
    let (phase, command) = r.step(phase, Event::CreateConflict);
    assert!(matches!(phase, Phase::Sweeping { .. }));
    assert!(matches!(command, Command::DeleteCollection { .. }));
    let (phase, _) = r.step(phase, Event::SweepOk);
    assert_eq!(phase, Phase::Done { action: Action { requeue_after_seconds: None } });
}

#[test]
fn surplus_objects_are_deleted_keeping_the_first() {
    let r = reconciler();
    let (phase, _) = r.start();
    let (phase, _) = r.step(phase, Event::ResourceFound { resource: sample_resource("5") });
    let names = vec!["app-a".to_string(), "app-b".to_string(), "app-c".to_string()];
    let (phase, command) = r.step(phase, Event::ListOk { names });
    assert_eq!(command, Command::Delete { name: "app-b".to_string() });
    let (phase, command) = r.step(phase, Event::DeleteOk);
    assert_eq!(command, Command::Delete { name: "app-c".to_string() });
    // A "not found" answer during the cleanup also counts as success.
    let (phase, command) = r.step(phase, Event::DeleteNotFound);
    assert!(matches!(command, Command::DeleteCollection { .. }));
    let (phase, command) = r.step(phase, Event::SweepOk);
    assert_eq!(phase, Phase::Done { action: Action { requeue_after_seconds: None } });
    assert_eq!(command, Command::Finish);
}

#[test]
fn missing_resource_finishes_cleanly_without_requeue() {
    let r = reconciler();
    let (phase, _) = r.start();
    let (phase, command) = r.step(phase, Event::ResourceGone);
    assert_eq!(phase, Phase::Done { action: Action { requeue_after_seconds: None } });
    assert_eq!(command, Command::Finish);
}

#[test]
fn each_failure_is_tagged_with_its_operation() {
    let r = reconciler();

    let (phase, _) = r.start();
    let (phase, _) = r.step(phase, Event::ResourceFound { resource: sample_resource("5") });
    let (phase, command) = r.step(phase, Event::ListFailed { message: "boom".to_string() });
    assert_eq!(phase, Phase::Failed { error: Error::List { message: "boom".to_string() } });
    assert_eq!(command, Command::Finish);

    let (phase, _) = r.start();
    let (phase, _) = r.step(phase, Event::ResourceFound { resource: sample_resource("5") });
    let (phase, _) = r.step(phase, Event::ListOk { names: vec![] });
    let (phase, _) = r.step(phase, Event::CreateFailed { message: "denied".to_string() });
    assert_eq!(phase, Phase::Failed { error: Error::Create { message: "denied".to_string() } });

    let (phase, _) = r.start();
    let (phase, _) = r.step(phase, Event::ResourceFound { resource: sample_resource("5") });
    let (phase, _) = r.step(phase, Event::ListOk { names: vec!["app-x".to_string()] });
    let (phase, _) = r.step(phase, Event::SweepFailed { message: "timeout".to_string() });
    assert_eq!(phase, Phase::Failed { error: Error::Delete { message: "timeout".to_string() } });
}

#[test]
fn only_conflict_and_not_found_are_benign() {
    assert_eq!(classify_create_failure(Some(409), "exists".to_string()), Event::CreateConflict);
    assert_eq!(
        classify_create_failure(Some(500), "oops".to_string()),
        Event::CreateFailed { message: "oops".to_string() }
    );
    assert_eq!(
        classify_create_failure(None, "io".to_string()),
        Event::CreateFailed { message: "io".to_string() }
    );
    assert_eq!(classify_delete_failure(Some(404), "gone".to_string()), Event::DeleteNotFound);
    assert_eq!(
        classify_delete_failure(Some(409), "busy".to_string()),
        Event::DeleteFailed { message: "busy".to_string() }
    );
    assert_eq!(
        classify_delete_failure(None, "io".to_string()),
        Event::DeleteFailed { message: "io".to_string() }
    );
}

#[test]
fn failure_descriptions_name_the_operation() {
    let list = Error::List { message: "boom".to_string() };
    assert_eq!(list.describe(), "failed to list DaemonSet: boom");
    let create = Error::Create { message: "denied".to_string() };
    assert_eq!(create.describe(), "failed to create DaemonSet: denied");
    let delete = Error::Delete { message: "timeout".to_string() };
    assert_eq!(delete.describe(), "failed to delete DaemonSets: timeout");
    assert_eq!(error_policy_action(&list), Action { requeue_after_seconds: None });
}
