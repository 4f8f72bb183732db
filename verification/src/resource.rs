//! The objects that a reconcile pass reads and writes.
//!
//! A user declares a [`BitwardenSecret`]; the operator answers with a
//! [`TargetSecret`] that the declaring object owns. Each type has a view that
//! holds its strings as character sequences and its maps as `Map`s.

use crate::string_map::StringMap;
use vstd::prelude::*;

verus! {

/// The `apiVersion` of the declaring objects.
pub const API_VERSION: &'static str = "jrcichra.dev/v1";

/// The `kind` of the declaring objects.
pub const KIND: &'static str = "BitwardenSecret";

/// The name under which the operator applies its Secrets, so that the
/// cluster can tell its fields from those that others manage.
pub const FIELD_MANAGER: &'static str = "bitwarden-secrets-operator.jrcichra.dev";

/// The annotation that records when a Secret was last written.
pub const LAST_RECONCILED: &'static str = "lastReconciled";

/// What a user asks for: the vault item to mirror, and how.
#[derive(Debug, Clone, PartialEq, Eq)]
pub struct BitwardenSecretSpec {
    /// The name of the vault item.
    pub name: String,
    /// The key under which an item's notes are stored; `notes` where absent.
    pub key: Option<String>,
    /// The type to give the Secret.
    pub type_: Option<String>,
}

pub struct BitwardenSecretSpecView {
    pub name: Seq<char>,
    pub key: Option<Seq<char>>,
    pub type_: Option<Seq<char>>,
}

impl View for BitwardenSecretSpec {
    type V = BitwardenSecretSpecView;

    open spec fn view(&self) -> BitwardenSecretSpecView {
        BitwardenSecretSpecView {
            name: self.name@,
            key: self.key.deep_view(),
            type_: self.type_.deep_view(),
        }
    }
}

/// What the cluster records of an object's identity. The cluster fills in
/// all three for an object that it hands out.
#[derive(Debug, Clone, PartialEq, Eq)]
pub struct Metadata {
    pub namespace: Option<String>,
    pub name: Option<String>,
    pub uid: Option<String>,
}

pub struct MetadataView {
    pub namespace: Option<Seq<char>>,
    pub name: Option<Seq<char>>,
    pub uid: Option<Seq<char>>,
}

impl View for Metadata {
    type V = MetadataView;

    open spec fn view(&self) -> MetadataView {
        MetadataView {
            namespace: self.namespace.deep_view(),
            name: self.name.deep_view(),
            uid: self.uid.deep_view(),
        }
    }
}

/// A declaring object as the cluster hands it out.
#[derive(Debug, Clone, PartialEq, Eq)]
pub struct BitwardenSecret {
    pub metadata: Metadata,
    pub spec: BitwardenSecretSpec,
}

pub struct BitwardenSecretView {
    pub metadata: MetadataView,
    pub spec: BitwardenSecretSpecView,
}

impl View for BitwardenSecret {
    type V = BitwardenSecretView;

    open spec fn view(&self) -> BitwardenSecretView {
        BitwardenSecretView { metadata: self.metadata@, spec: self.spec@ }
    }
}

/// Names the object that owns a Secret. The cluster deletes the Secret when
/// its owner is deleted.
#[derive(Debug, Clone, PartialEq, Eq)]
pub struct OwnerReference {
    pub api_version: String,
    pub kind: String,
    pub name: String,
    pub uid: String,
    /// Whether the owner is the controller that manages the Secret.
    pub controller: bool,
}

pub struct OwnerReferenceView {
    pub api_version: Seq<char>,
    pub kind: Seq<char>,
    pub name: Seq<char>,
    pub uid: Seq<char>,
    pub controller: bool,
}

impl View for OwnerReference {
    type V = OwnerReferenceView;

    open spec fn view(&self) -> OwnerReferenceView {
        OwnerReferenceView {
            api_version: self.api_version@,
            kind: self.kind@,
            name: self.name@,
            uid: self.uid@,
            controller: self.controller,
        }
    }
}

/// The controller reference to an object called `name` with the id `uid`.
pub open spec fn controller_reference(name: Seq<char>, uid: Seq<char>) -> OwnerReferenceView {
    OwnerReferenceView { api_version: API_VERSION@, kind: KIND@, name, uid, controller: true }
}

impl BitwardenSecret {
    /// The reference by which a Secret names this object as its controller.
    /// There is none for an object without a name or without an id.
    pub fn controller_owner_ref(&self) -> (reference: Option<OwnerReference>)
        ensures
            reference.deep_view() == match (self@.metadata.name, self@.metadata.uid) {
                (Some(name), Some(uid)) => Some(controller_reference(name, uid)),
                _ => None,
            },
    {
        match (&self.metadata.name, &self.metadata.uid) {
            (Some(name), Some(uid)) => Some(
                OwnerReference {
                    api_version: API_VERSION.to_owned(),
                    kind: KIND.to_owned(),
                    name: name.clone(),
                    uid: uid.clone(),
                    controller: true,
                },
            ),
            _ => None,
        }
    }
}

impl DeepView for OwnerReference {
    type V = OwnerReferenceView;

    open spec fn deep_view(&self) -> OwnerReferenceView {
        self@
    }
}

/// The Secret that the operator writes for one declaring object.
#[derive(Debug)]
pub struct TargetSecret {
    pub name: String,
    pub namespace: String,
    pub owner: OwnerReference,
    pub annotations: StringMap<String>,
    /// The data, as strings; the cluster encodes them.
    pub string_data: StringMap<String>,
    pub type_: Option<String>,
}

pub struct TargetSecretView {
    pub name: Seq<char>,
    pub namespace: Seq<char>,
    pub owner: OwnerReferenceView,
    pub annotations: Map<Seq<char>, Seq<char>>,
    pub string_data: Map<Seq<char>, Seq<char>>,
    pub type_: Option<Seq<char>>,
}

impl View for TargetSecret {
    type V = TargetSecretView;

    open spec fn view(&self) -> TargetSecretView {
        TargetSecretView {
            name: self.name@,
            namespace: self.namespace@,
            owner: self.owner@,
            annotations: self.annotations@,
            string_data: self.string_data@,
            type_: self.type_.deep_view(),
        }
    }
}

} // verus!
