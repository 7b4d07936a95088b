//! The managed workload: the part of a Deployment that the controller derives and reads.

use crate::meta::{Labels, ObjectMeta, ObjectMetaView};
use vstd::prelude::*;

verus! {

/// One container of a pod.
#[derive(Clone, Debug, PartialEq, Eq)]
pub struct Container {
    pub name: String,
    pub image: Option<String>,
}

/// The mathematical value of a [`Container`].
pub struct ContainerView {
    pub name: Seq<char>,
    pub image: Option<Seq<char>>,
}

impl DeepView for Container {
    type V = ContainerView;

    open spec fn deep_view(&self) -> ContainerView {
        ContainerView { name: self.name@, image: self.image.deep_view() }
    }
}

impl View for Container {
    type V = ContainerView;

    open spec fn view(&self) -> ContainerView {
        self.deep_view()
    }
}

/// What runs in a pod.
#[derive(Clone, Debug, PartialEq, Eq)]
pub struct PodSpec {
    pub containers: Vec<Container>,
}

/// The mathematical value of a [`PodSpec`].
pub struct PodSpecView {
    pub containers: Seq<ContainerView>,
}

impl DeepView for PodSpec {
    type V = PodSpecView;

    open spec fn deep_view(&self) -> PodSpecView {
        PodSpecView { containers: self.containers.deep_view() }
    }
}

impl View for PodSpec {
    type V = PodSpecView;

    open spec fn view(&self) -> PodSpecView {
        self.deep_view()
    }
}

/// The pods that a workload creates.
#[derive(Clone, Debug, PartialEq, Eq)]
pub struct PodTemplateSpec {
    pub metadata: Option<ObjectMeta>,
    pub spec: Option<PodSpec>,
}

/// The mathematical value of a [`PodTemplateSpec`].
pub struct PodTemplateSpecView {
    pub metadata: Option<ObjectMetaView>,
    pub spec: Option<PodSpecView>,
}

impl DeepView for PodTemplateSpec {
    type V = PodTemplateSpecView;

    open spec fn deep_view(&self) -> PodTemplateSpecView {
        PodTemplateSpecView { metadata: self.metadata.deep_view(), spec: self.spec.deep_view() }
    }
}

impl View for PodTemplateSpec {
    type V = PodTemplateSpecView;

    open spec fn view(&self) -> PodTemplateSpecView {
        self.deep_view()
    }
}

/// Selects pods by their labels.
#[derive(Clone, Debug, PartialEq, Eq)]
pub struct LabelSelector {
    pub match_labels: Option<Labels>,
}

/// The mathematical value of a [`LabelSelector`].
pub struct LabelSelectorView {
    pub match_labels: Option<Seq<(Seq<char>, Seq<char>)>>,
}

impl DeepView for LabelSelector {
    type V = LabelSelectorView;

    open spec fn deep_view(&self) -> LabelSelectorView {
        LabelSelectorView { match_labels: self.match_labels.deep_view() }
    }
}

impl View for LabelSelector {
    type V = LabelSelectorView;

    open spec fn view(&self) -> LabelSelectorView {
        self.deep_view()
    }
}

/// The desired shape of a workload.
#[derive(Clone, Debug, PartialEq, Eq)]
pub struct DeploymentSpec {
    pub replicas: Option<i32>,
    pub selector: LabelSelector,
    pub template: PodTemplateSpec,
}

/// The mathematical value of a [`DeploymentSpec`].
pub struct DeploymentSpecView {
    pub replicas: Option<i32>,
    pub selector: LabelSelectorView,
    pub template: PodTemplateSpecView,
}

impl DeepView for DeploymentSpec {
    type V = DeploymentSpecView;

    open spec fn deep_view(&self) -> DeploymentSpecView {
        DeploymentSpecView {
            replicas: self.replicas,
            selector: self.selector.deep_view(),
            template: self.template.deep_view(),
        }
    }
}

impl View for DeploymentSpec {
    type V = DeploymentSpecView;

    open spec fn view(&self) -> DeploymentSpecView {
        self.deep_view()
    }
}

/// A managed workload.
#[derive(Clone, Debug, PartialEq, Eq)]
pub struct Deployment {
    pub metadata: ObjectMeta,
    pub spec: Option<DeploymentSpec>,
}

/// The mathematical value of a [`Deployment`].
pub struct DeploymentView {
    pub metadata: ObjectMetaView,
    pub spec: Option<DeploymentSpecView>,
}

impl DeepView for Deployment {
    type V = DeploymentView;

    open spec fn deep_view(&self) -> DeploymentView {
        DeploymentView { metadata: self.metadata.deep_view(), spec: self.spec.deep_view() }
    }
}

impl View for Deployment {
    type V = DeploymentView;

    open spec fn view(&self) -> DeploymentView {
        self.deep_view()
    }
}

impl DeploymentView {
    /// The replica count that this shape reports, if it reports one.
    pub open spec fn replicas(self) -> Option<i32> {
        match self.spec {
            Some(spec) => spec.replicas,
            None => None,
        }
    }

    /// The owner references of this workload; an absent list counts as empty.
    pub open spec fn owners(self) -> Seq<crate::meta::OwnerReferenceView> {
        match self.metadata.owner_references {
            Some(list) => list,
            None => Seq::empty(),
        }
    }
}

impl Deployment {
    /// The replica count that this shape reports, if it reports one.
    pub fn replicas(&self) -> (count: Option<i32>)
        ensures
            count == self@.replicas(),
    {
        match &self.spec {
            Some(spec) => spec.replicas,
            None => None,
        }
    }
}

} // verus!
