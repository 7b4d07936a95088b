//! The `Foo` custom resource: what a user declares and what the controller reports.

use crate::meta::{
    controller_owner_ref, controller_owner_ref_of, name_any, clone_text, ObjectMeta,
    ObjectMetaView, OwnerReference, OwnerReferenceView,
};
use vstd::prelude::*;

verus! {

/// The API group of the resource.
pub const GROUP: &'static str = "samplecontroller.k8s.io";

/// The version of the resource within its group.
pub const VERSION: &'static str = "v1alpha1";

/// The `apiVersion` of the resource: group and version.
pub const API_VERSION: &'static str = "samplecontroller.k8s.io/v1alpha1";

/// The kind of the resource.
pub const KIND: &'static str = "Foo";

/// The `apiVersion` is the group and the version, joined by a slash.
pub proof fn api_version_joins_group_and_version()
    ensures
        API_VERSION@ == GROUP@ + "/"@ + VERSION@,
{
    reveal_strlit("samplecontroller.k8s.io/v1alpha1");
    reveal_strlit("samplecontroller.k8s.io");
    reveal_strlit("v1alpha1");
    reveal_strlit("/");
    assert(API_VERSION@ =~= GROUP@ + "/"@ + VERSION@);
}

/// What a user asks for: the name of the workload to manage and how many replicas it runs.
#[derive(Clone, Debug, PartialEq, Eq)]
pub struct FooSpec {
    pub deployment_name: String,
    pub replicas: i32,
}

/// The mathematical value of a [`FooSpec`].
pub struct FooSpecView {
    pub deployment_name: Seq<char>,
    pub replicas: i32,
}

impl DeepView for FooSpec {
    type V = FooSpecView;

    open spec fn deep_view(&self) -> FooSpecView {
        FooSpecView { deployment_name: self.deployment_name@, replicas: self.replicas }
    }
}

impl View for FooSpec {
    type V = FooSpecView;

    open spec fn view(&self) -> FooSpecView {
        self.deep_view()
    }
}

impl FooSpecView {
    /// Whether the spec asks for a replica count that a workload can have: none below zero.
    pub open spec fn is_valid(self) -> bool {
        self.replicas >= 0
    }
}

impl FooSpec {
    /// Whether the spec asks for a replica count that a workload can have: none below zero.
    pub fn is_valid(&self) -> (valid: bool)
        ensures
            valid == self@.is_valid(),
    {
        self.replicas >= 0
    }
}

/// What the controller last observed of the managed workload.
#[derive(Clone, Copy, Debug, Default, PartialEq, Eq, Structural)]
pub struct FooStatus {
    pub available_replicas: i32,
}

impl DeepView for FooStatus {
    type V = FooStatus;

    open spec fn deep_view(&self) -> FooStatus {
        *self
    }
}

impl View for FooStatus {
    type V = FooStatus;

    open spec fn view(&self) -> FooStatus {
        *self
    }
}

/// A declared resource as the cluster holds it.
#[derive(Clone, Debug, PartialEq, Eq)]
pub struct Foo {
    pub metadata: ObjectMeta,
    pub spec: FooSpec,
    pub status: Option<FooStatus>,
}

/// The mathematical value of a [`Foo`].
pub struct FooView {
    pub metadata: ObjectMetaView,
    pub spec: FooSpecView,
    pub status: Option<FooStatus>,
}

impl DeepView for Foo {
    type V = FooView;

    open spec fn deep_view(&self) -> FooView {
        FooView {
            metadata: self.metadata.deep_view(),
            spec: self.spec.deep_view(),
            status: self.status,
        }
    }
}

impl View for Foo {
    type V = FooView;

    open spec fn view(&self) -> FooView {
        self.deep_view()
    }
}

impl FooView {
    /// The reference by which a managed resource names this resource as its controller.
    /// It exists exactly when the resource has a name and a UID, which every resource read
    /// from the cluster has.
    pub open spec fn controller_owner_ref(self) -> Option<OwnerReferenceView> {
        controller_owner_ref_of(API_VERSION@, KIND@, self.metadata.name, self.metadata.uid)
    }

    /// Whether the resource has the name and the UID that an owner reference needs.
    pub open spec fn has_owner_identity(self) -> bool {
        self.metadata.name is Some && self.metadata.uid is Some
    }
}

impl Foo {
    /// The most useful name available: the name, else the name prefix, else the empty
    /// string.
    pub fn name_any(&self) -> (name: String)
        ensures
            name@ == self@.metadata.name_any(),
    {
        name_any(&self.metadata.name, &self.metadata.generate_name)
    }

    /// The namespace that the resource lives in.
    pub fn namespace(&self) -> (namespace: Option<String>)
        ensures
            namespace.deep_view() == self@.metadata.namespace,
    {
        clone_text(&self.metadata.namespace)
    }

    /// The reference by which a managed resource names this resource as its controller:
    /// `None` exactly when the resource lacks a name or a UID.
    pub fn controller_owner_ref(&self) -> (link: Option<OwnerReference>)
        ensures
            link.deep_view() == self@.controller_owner_ref(),
            link is Some <==> self@.has_owner_identity(),
    {
        controller_owner_ref(API_VERSION, KIND, &self.metadata.name, &self.metadata.uid)
    }

    /// Whether the platform has marked the resource for deletion.
    pub fn is_deleting(&self) -> (deleting: bool)
        ensures
            deleting == self@.metadata.is_deleting(),
    {
        self.metadata.deletion_timestamp.is_some()
    }
}

} // verus!
