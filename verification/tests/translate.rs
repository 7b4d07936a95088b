use sample_controller::crd::{Foo, FooSpec, FooStatus, API_VERSION, GROUP, KIND, VERSION};
use sample_controller::deployment::{Container, Deployment};
use sample_controller::meta::{ObjectMeta, OwnerReference};

fn foo(name: &str, deployment_name: &str, replicas: i32) -> Foo {
    Foo {
        metadata: ObjectMeta {
            name: Some(name.to_string()),
            namespace: Some("default".to_string()),
            uid: Some("c0ffee-0001".to_string()),
            ..ObjectMeta::default()
        },
        spec: FooSpec { deployment_name: deployment_name.to_string(), replicas },
        status: None,
    }
}

fn label(key: &str, value: &str) -> (String, String) {
    (key.to_string(), value.to_string())
}

#[test]
fn api_version_joins_group_and_version() {
    assert_eq!(API_VERSION, format!("{GROUP}/{VERSION}"));
    assert_eq!(KIND, "Foo");
}

#[test]
fn desired_deployment_has_the_declared_name_and_replicas() {
    let deployment = Deployment::from(&foo("example-foo", "example-foo", 3));
    assert_eq!(deployment.metadata.name, Some("example-foo".to_string()));
    assert_eq!(deployment.metadata.namespace, Some("default".to_string()));
    assert_eq!(deployment.replicas(), Some(3));
    assert_eq!(deployment.spec.as_ref().unwrap().replicas, Some(3));
}

#[test]
fn desired_deployment_is_named_by_the_spec_not_by_the_resource() {
    let deployment = Deployment::from(&foo("example-foo", "workload", 1));
    assert_eq!(deployment.metadata.name, Some("workload".to_string()));
    let owner = &deployment.metadata.owner_references.as_ref().unwrap()[0];
    assert_eq!(owner.name, "example-foo");
}

#[test]
fn desired_deployment_has_exactly_one_controlling_owner() {
    let deployment = Deployment::from(&foo("example-foo", "example-foo", 3));
    let owners = deployment.metadata.owner_references.unwrap();
    assert_eq!(
        owners,
        vec![OwnerReference {
            api_version: "samplecontroller.k8s.io/v1alpha1".to_string(),
            kind: "Foo".to_string(),
            name: "example-foo".to_string(),
            uid: "c0ffee-0001".to_string(),
            controller: Some(true),
            block_owner_deletion: None,
        }]
    );
}

#[test]
fn desired_labels_select_the_pods_of_the_template() {
    let deployment = Deployment::from(&foo("example-foo", "example-foo", 3));
    let spec = deployment.spec.unwrap();
    let expected = vec![label("app", "nginx"), label("controller", "example-foo")];
    assert_eq!(spec.selector.match_labels, Some(expected.clone()));
    assert_eq!(spec.template.metadata.as_ref().unwrap().labels, Some(expected));
    assert_eq!(spec.template.metadata.as_ref().unwrap().name, None);
}

#[test]
fn desired_pods_run_one_nginx_container() {
    let deployment = Deployment::from(&foo("example-foo", "example-foo", 3));
    let pod = deployment.spec.unwrap().template.spec.unwrap();
    assert_eq!(
        pod.containers,
        vec![Container { name: "nginx".to_string(), image: Some("nginx:latest".to_string()) }]
    );
}

#[test]
fn desired_deployment_sets_nothing_else_in_its_metadata() {
    let deployment = Deployment::from(&foo("example-foo", "example-foo", 3));
    assert_eq!(deployment.metadata.uid, None);
    assert_eq!(deployment.metadata.generate_name, None);
    assert_eq!(deployment.metadata.resource_version, None);
    assert_eq!(deployment.metadata.deletion_timestamp, None);
    assert_eq!(deployment.metadata.finalizers, None);
    assert_eq!(deployment.metadata.labels, None);
}

#[test]
fn translation_is_deterministic() {
    let resource = foo("example-foo", "example-foo", 3);
    assert_eq!(Deployment::from(&resource), Deployment::from(&resource));
    assert_eq!(Deployment::from(&resource), Deployment::from(&resource.clone()));
}

#[test]
fn translation_ignores_status_resource_version_and_finalizers() {
    let resource = foo("example-foo", "example-foo", 3);
    let mut later = resource.clone();
    later.status = Some(FooStatus { available_replicas: 3 });
    later.metadata.resource_version = Some("42".to_string());
    later.metadata.finalizers = Some(vec!["sample-controller/finalizer".to_string()]);
    assert_eq!(Deployment::from(&resource), Deployment::from(&later));
}

#[test]
fn replicas_are_copied_verbatim() {
    assert_eq!(Deployment::from(&foo("a", "a", 0)).replicas(), Some(0));
    assert_eq!(Deployment::from(&foo("a", "a", i32::MAX)).replicas(), Some(i32::MAX));
    assert_eq!(Deployment::from(&foo("a", "a", -1)).replicas(), Some(-1));
}

#[test]
fn owner_reference_needs_a_name_and_a_uid() {
    let mut resource = foo("example-foo", "example-foo", 3);
    assert!(resource.controller_owner_ref().is_some());
    resource.metadata.uid = None;
    assert_eq!(resource.controller_owner_ref(), None);
    resource.metadata.uid = Some("c0ffee-0001".to_string());
    resource.metadata.name = None;
    assert_eq!(resource.controller_owner_ref(), None);
}

#[test]
fn owner_reference_does_not_use_the_name_prefix() {
    let mut resource = foo("example-foo", "example-foo", 3);
    resource.metadata.name = None;
    resource.metadata.generate_name = Some("example-".to_string());
    assert_eq!(resource.controller_owner_ref(), None);
}

#[test]
fn name_any_prefers_the_name() {
    let mut resource = foo("example-foo", "example-foo", 3);
    resource.metadata.generate_name = Some("example-".to_string());
    assert_eq!(resource.name_any(), "example-foo");
}

#[test]
fn name_any_falls_back_on_the_name_prefix() {
    let mut resource = foo("example-foo", "example-foo", 3);
    resource.metadata.name = None;
    resource.metadata.generate_name = Some("example-".to_string());
    assert_eq!(resource.name_any(), "example-");
}

#[test]
fn name_any_is_empty_without_any_name() {
    let mut resource = foo("example-foo", "example-foo", 3);
    resource.metadata.name = None;
    assert_eq!(resource.name_any(), "");
}

#[test]
fn namespace_and_deletion_mark_are_read_from_the_metadata() {
    let mut resource = foo("example-foo", "example-foo", 3);
    assert_eq!(resource.namespace(), Some("default".to_string()));
    assert!(!resource.is_deleting());
    resource.metadata.namespace = None;
    resource.metadata.deletion_timestamp = Some("2024-05-01T10:00:00Z".to_string());
    assert_eq!(resource.namespace(), None);
    assert!(resource.is_deleting());
}

#[test]
fn deployment_without_a_spec_reports_no_replicas() {
    let deployment = Deployment { metadata: ObjectMeta::default(), spec: None };
    assert_eq!(deployment.replicas(), None);
}

#[test]
fn replica_counts_below_zero_are_invalid() {
    assert!(FooSpec { deployment_name: "a".to_string(), replicas: 0 }.is_valid());
    assert!(FooSpec { deployment_name: "a".to_string(), replicas: 3 }.is_valid());
    assert!(!FooSpec { deployment_name: "a".to_string(), replicas: -1 }.is_valid());
    assert!(!FooSpec { deployment_name: "a".to_string(), replicas: i32::MIN }.is_valid());
}
