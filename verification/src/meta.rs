//! Object metadata: the identity of a resource, its finalizers, its labels and the link to
//! its owner.

use kube::{Resource, ResourceExt};
use vstd::prelude::*;

verus! {

/// A back-link from a managed resource to the resource that owns it.
#[derive(Clone, Debug, PartialEq, Eq)]
pub struct OwnerReference {
    pub api_version: String,
    pub kind: String,
    pub name: String,
    pub uid: String,
    pub controller: Option<bool>,
    pub block_owner_deletion: Option<bool>,
}

/// The mathematical value of an [`OwnerReference`].
pub struct OwnerReferenceView {
    pub api_version: Seq<char>,
    pub kind: Seq<char>,
    pub name: Seq<char>,
    pub uid: Seq<char>,
    pub controller: Option<bool>,
    pub block_owner_deletion: Option<bool>,
}

impl DeepView for OwnerReference {
    type V = OwnerReferenceView;

    open spec fn deep_view(&self) -> OwnerReferenceView {
        OwnerReferenceView {
            api_version: self.api_version@,
            kind: self.kind@,
            name: self.name@,
            uid: self.uid@,
            controller: self.controller,
            block_owner_deletion: self.block_owner_deletion,
        }
    }
}

impl View for OwnerReference {
    type V = OwnerReferenceView;

    open spec fn view(&self) -> OwnerReferenceView {
        self.deep_view()
    }
}

impl OwnerReferenceView {
    /// Whether this reference names its target as the managing controller.
    pub open spec fn is_controller(self) -> bool {
        self.controller == Some(true)
    }
}

/// A set of labels, one `(key, value)` pair per key.
pub type Labels = Vec<(String, String)>;

/// Whether no key occurs twice among `labels`.
pub open spec fn distinct_keys(labels: Seq<(Seq<char>, Seq<char>)>) -> bool {
    forall|i: int, j: int|
        0 <= i < j < labels.len() ==> (#[trigger] labels[i]).0 != (#[trigger] labels[j]).0
}

/// The part of a resource's metadata that the controller reads or writes.
#[derive(Clone, Debug, PartialEq, Eq)]
pub struct ObjectMeta {
    pub name: Option<String>,
    pub generate_name: Option<String>,
    pub namespace: Option<String>,
    pub uid: Option<String>,
    pub resource_version: Option<String>,
    pub deletion_timestamp: Option<String>,
    pub finalizers: Option<Vec<String>>,
    pub owner_references: Option<Vec<OwnerReference>>,
    pub labels: Option<Labels>,
}

/// The mathematical value of an [`ObjectMeta`].
pub struct ObjectMetaView {
    pub name: Option<Seq<char>>,
    pub generate_name: Option<Seq<char>>,
    pub namespace: Option<Seq<char>>,
    pub uid: Option<Seq<char>>,
    pub resource_version: Option<Seq<char>>,
    pub deletion_timestamp: Option<Seq<char>>,
    pub finalizers: Option<Seq<Seq<char>>>,
    pub owner_references: Option<Seq<OwnerReferenceView>>,
    pub labels: Option<Seq<(Seq<char>, Seq<char>)>>,
}

impl DeepView for ObjectMeta {
    type V = ObjectMetaView;

    open spec fn deep_view(&self) -> ObjectMetaView {
        ObjectMetaView {
            name: self.name.deep_view(),
            generate_name: self.generate_name.deep_view(),
            namespace: self.namespace.deep_view(),
            uid: self.uid.deep_view(),
            resource_version: self.resource_version.deep_view(),
            deletion_timestamp: self.deletion_timestamp.deep_view(),
            finalizers: self.finalizers.deep_view(),
            owner_references: self.owner_references.deep_view(),
            labels: self.labels.deep_view(),
        }
    }
}

impl View for ObjectMeta {
    type V = ObjectMetaView;

    open spec fn view(&self) -> ObjectMetaView {
        self.deep_view()
    }
}

impl ObjectMetaView {
    /// Metadata with nothing set.
    pub open spec fn empty() -> ObjectMetaView {
        ObjectMetaView {
            name: None,
            generate_name: None,
            namespace: None,
            uid: None,
            resource_version: None,
            deletion_timestamp: None,
            finalizers: None,
            owner_references: None,
            labels: None,
        }
    }

    /// The finalizers recorded on the object; an absent list counts as empty.
    pub open spec fn finalizer_list(self) -> Seq<Seq<char>> {
        match self.finalizers {
            Some(list) => list,
            None => Seq::empty(),
        }
    }

    /// Whether the platform has marked the object for deletion.
    pub open spec fn is_deleting(self) -> bool {
        self.deletion_timestamp is Some
    }

    /// The most useful name available: the name, else the name prefix, else nothing.
    pub open spec fn name_any(self) -> Seq<char> {
        name_any_of(self.name, self.generate_name)
    }
}

impl Default for ObjectMeta {
    fn default() -> (meta: ObjectMeta)
        ensures
            meta@ == ObjectMetaView::empty(),
    {
        ObjectMeta {
            name: None,
            generate_name: None,
            namespace: None,
            uid: None,
            resource_version: None,
            deletion_timestamp: None,
            finalizers: None,
            owner_references: None,
            labels: None,
        }
    }
}

/// The name that `kube` reports for an object with the given name and name prefix.
pub open spec fn name_any_of(name: Option<Seq<char>>, generate_name: Option<Seq<char>>) -> Seq<
    char,
> {
    match name {
        Some(n) => n,
        None => match generate_name {
            Some(g) => g,
            None => Seq::empty(),
        },
    }
}

/// The controlling owner reference that `kube` derives for an object of type
/// `api_version`/`kind`: none unless the object has both a name and a UID.
pub open spec fn controller_owner_ref_of(
    api_version: Seq<char>,
    kind: Seq<char>,
    name: Option<Seq<char>>,
    uid: Option<Seq<char>>,
) -> Option<OwnerReferenceView> {
    if name is Some && uid is Some {
        Some(
            OwnerReferenceView {
                api_version,
                kind,
                name: name->0,
                uid: uid->0,
                controller: Some(true),
                block_owner_deletion: None,
            },
        )
    } else {
        None
    }
}

/// Calls `kube::ResourceExt::name_any` on an object whose metadata holds `name` and
/// `generate_name`. As in `kube`, the result is the name if there is one, else the name
/// prefix if there is one, else the empty string.
#[verifier::external_body]
pub(crate) fn name_any(name: &Option<String>, generate_name: &Option<String>) -> (text: String)
    ensures
        text@ == name_any_of(name.deep_view(), generate_name.deep_view()),
{
    let metadata = kube::core::ObjectMeta {
        name: name.clone(),
        generate_name: generate_name.clone(),
        ..Default::default()
    };
    let object = kube::core::DynamicObject { types: None, metadata, data: Default::default() };
    object.name_any()
}

/// Calls `kube::Resource::controller_owner_ref` on an object of type `api_version`/`kind`
/// whose metadata holds `name` and `uid`. As in `kube`, the reference exists only when the
/// object has a name and a UID; it then carries the type, the name and the UID, and marks
/// the owner as the controller. Nothing else is set.
#[verifier::external_body]
pub(crate) fn controller_owner_ref(
    api_version: &str,
    kind: &str,
    name: &Option<String>,
    uid: &Option<String>,
) -> (link: Option<OwnerReference>)
    ensures
        link.deep_view() == controller_owner_ref_of(
            api_version@,
            kind@,
            name.deep_view(),
            uid.deep_view(),
        ),
{
    let dt = kube::core::ApiResource {
        group: String::new(), version: String::new(), plural: String::new(),
        api_version: api_version.to_string(), kind: kind.to_string(),
    };
    let metadata = kube::core::ObjectMeta { name: name.clone(), uid: uid.clone(), ..Default::default() };
    let object = kube::core::DynamicObject { types: None, metadata, data: Default::default() };
    match object.controller_owner_ref(&dt) {
        None => None,
        Some(r) => Some(OwnerReference {
            api_version: r.api_version, kind: r.kind, name: r.name, uid: r.uid,
            controller: r.controller, block_owner_deletion: r.block_owner_deletion,
        }),
    }
}

/// A copy of an optional text.
pub(crate) fn clone_text(text: &Option<String>) -> (copy: Option<String>)
    ensures
        copy.deep_view() == text.deep_view(),
{
    match text {
        Some(t) => Some(t.clone()),
        None => None,
    }
}

/// A copy of a list of texts.
pub(crate) fn clone_texts(texts: &Vec<String>) -> (copy: Vec<String>)
    ensures
        copy.deep_view() == texts.deep_view(),
{
    let mut copy: Vec<String> = Vec::new();
    let mut i: usize = 0;
    while i < texts.len()
        invariant
            i <= texts.len(),
            copy.len() == i,
            forall|j: int| 0 <= j < i ==> copy[j]@ == texts[j]@,
        decreases texts.len() - i,
    {
        copy.push(texts[i].clone());
        i += 1;
    }
    assert(copy.deep_view() =~= texts.deep_view());
    copy
}

} // verus!
