//! From a declared resource to the workload that it asks for.

use crate::crd::{Foo, FooView};
use crate::deployment::{
    Container, ContainerView, Deployment, DeploymentSpec, DeploymentSpecView, DeploymentView,
    LabelSelector, LabelSelectorView, PodSpec, PodSpecView, PodTemplateSpec, PodTemplateSpecView,
};
use crate::meta::{Labels, ObjectMeta, ObjectMetaView};
use vstd::prelude::*;
use vstd::string::*;

verus! {

/// The labels that tie a workload's selector to its pods: the fixed application label, and
/// the name of the declared resource that the workload belongs to.
pub open spec fn desired_labels(foo: FooView) -> Seq<(Seq<char>, Seq<char>)> {
    seq![("app"@, "nginx"@), ("controller"@, foo.metadata.name_any())]
}

/// The container that every pod of a workload runs.
pub open spec fn desired_container() -> ContainerView {
    ContainerView { name: "nginx"@, image: Some("nginx:latest"@) }
}

/// The workload that `foo` asks for. It is named as `foo` says, lives beside `foo`, is
/// controlled by `foo` alone, and runs as many replicas as `foo` says.
pub open spec fn desired_deployment(foo: FooView) -> DeploymentView
    recommends
        foo.has_owner_identity(),
{
    DeploymentView {
        metadata: ObjectMetaView {
            name: Some(foo.spec.deployment_name),
            namespace: foo.metadata.namespace,
            owner_references: Some(seq![foo.controller_owner_ref()->0]),
            ..ObjectMetaView::empty()
        },
        spec: Some(
            DeploymentSpecView {
                replicas: Some(foo.spec.replicas),
                selector: LabelSelectorView { match_labels: Some(desired_labels(foo)) },
                template: PodTemplateSpecView {
                    metadata: Some(
                        ObjectMetaView {
                            labels: Some(desired_labels(foo)),
                            ..ObjectMetaView::empty()
                        },
                    ),
                    spec: Some(PodSpecView { containers: seq![desired_container()] }),
                },
            },
        ),
    }
}

/// The labels of the workload of `foo`.
fn labels_for(foo: &Foo) -> (labels: Labels)
    ensures
        labels.deep_view() == desired_labels(foo@),
{
    let labels = vec![
        (String::from_str("app"), String::from_str("nginx")),
        (String::from_str("controller"), foo.name_any()),
    ];
    assert(labels.deep_view() =~= desired_labels(foo@));
    labels
}

impl Deployment {
    /// The workload that `foo` asks for. `foo` must have the name and the UID that the
    /// owner reference is made of; every resource read from the cluster has them.
    pub fn from(foo: &Foo) -> (deployment: Deployment)
        requires
            foo@.has_owner_identity(),
        ensures
            deployment@ == desired_deployment(foo@),
    {
        let oref = foo.controller_owner_ref().unwrap();
        let owner_references = vec![oref];
        assert(owner_references.deep_view() =~= seq![foo@.controller_owner_ref()->0]);
        let containers = vec![
            Container { name: String::from_str("nginx"), image: Some(String::from_str("nginx:latest")) },
        ];
        assert(containers.deep_view() =~= seq![desired_container()]);
        let metadata = ObjectMeta::default();
        let template_metadata = ObjectMeta::default();
        Deployment {
            metadata: ObjectMeta {
                name: Some(foo.spec.deployment_name.clone()),
                namespace: foo.namespace(),
                owner_references: Some(owner_references),
                ..metadata
            },
            spec: Some(
                DeploymentSpec {
                    replicas: Some(foo.spec.replicas),
                    selector: LabelSelector { match_labels: Some(labels_for(foo)) },
                    template: PodTemplateSpec {
                        metadata: Some(
                            ObjectMeta { labels: Some(labels_for(foo)), ..template_metadata },
                        ),
                        spec: Some(PodSpec { containers }),
                    },
                },
            ),
        }
    }
}

} // verus!
