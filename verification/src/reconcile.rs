//! One reconcile pass: from a declaring object and the credential cache to
//! the Secret to apply, and from the cluster's answer to what happens next.
//!
//! A pass has two halves with the cluster's write between them.
//! [`reconcile`] decides what to write, or why nothing can be written;
//! [`conclude`] takes how the write went and says when to come back.

use crate::cache::CredentialCache;
use crate::json::{Json, JsonValue};
use crate::policy::{Action, REQUEUE_AFTER_FAILURE_SECS, REQUEUE_AFTER_SUCCESS_SECS};
use crate::resource::{
    controller_reference, BitwardenSecret, BitwardenSecretView, TargetSecret, TargetSecretView,
    LAST_RECONCILED,
};
use crate::string_map::StringMap;
use vstd::prelude::*;
use vstd::string::StringExecFns;

verus! {

/// A field of an object's identity.
#[derive(Debug, Clone, Copy, PartialEq, Eq, Structural)]
pub enum IdentityField {
    Namespace,
    Name,
    Uid,
}

impl IdentityField {
    /// Where the field stands in the object.
    pub open spec fn path(self) -> Seq<char> {
        match self {
            IdentityField::Namespace => ".metadata.namespace"@,
            IdentityField::Name => ".metadata.name"@,
            IdentityField::Uid => ".metadata.uid"@,
        }
    }

    /// Where the field stands in the object.
    pub fn path_str(&self) -> (path: &'static str)
        ensures
            path@ == self.path(),
    {
        match self {
            IdentityField::Namespace => ".metadata.namespace",
            IdentityField::Name => ".metadata.name",
            IdentityField::Uid => ".metadata.uid",
        }
    }
}

/// Why a pass did not end in an applied Secret.
#[derive(Debug, PartialEq, Eq)]
pub enum ReconcileError {
    /// The cache holds no item of the name that the object asks for.
    ItemNotFound { name: String },
    /// The item has neither a login with a username and a password nor notes.
    SecretShapeUnresolvable { name: String },
    /// The object lacks a part of its identity.
    MissingObjectKey { field: IdentityField },
    /// The cluster did not take the Secret.
    ClusterWriteFailed { reason: String },
}

pub enum ReconcileErrorView {
    ItemNotFound { name: Seq<char> },
    SecretShapeUnresolvable { name: Seq<char> },
    MissingObjectKey { field: IdentityField },
    ClusterWriteFailed { reason: Seq<char> },
}

impl View for ReconcileError {
    type V = ReconcileErrorView;

    open spec fn view(&self) -> ReconcileErrorView {
        match self {
            ReconcileError::ItemNotFound { name } => ReconcileErrorView::ItemNotFound { name: name@ },
            ReconcileError::SecretShapeUnresolvable { name } => ReconcileErrorView::SecretShapeUnresolvable {
                name: name@,
            },
            ReconcileError::MissingObjectKey { field } => ReconcileErrorView::MissingObjectKey {
                field: *field,
            },
            ReconcileError::ClusterWriteFailed { reason } => ReconcileErrorView::ClusterWriteFailed {
                reason: reason@,
            },
        }
    }
}

impl ReconcileErrorView {
    /// The error in words.
    pub open spec fn message(self) -> Seq<char> {
        match self {
            ReconcileErrorView::ItemNotFound { name } => "BitwardenError: "@ + name + " not found"@,
            ReconcileErrorView::SecretShapeUnresolvable { name } => "BitwardenError: card/login not found for "@
                + name,
            ReconcileErrorView::MissingObjectKey { field } => "MissingObjectKey: "@ + field.path(),
            ReconcileErrorView::ClusterWriteFailed { reason } => "Failed to create Secret: "@ + reason,
        }
    }
}

impl ReconcileError {
    /// The error in words, for the log.
    pub fn message(&self) -> (text: String)
        ensures
            text@ == self@.message(),
    {
        match self {
            ReconcileError::ItemNotFound { name } => {
                let mut text = String::from_str("BitwardenError: ");
                text.append(name.as_str());
                text.append(" not found");
                text
            },
            ReconcileError::SecretShapeUnresolvable { name } => {
                let mut text = String::from_str("BitwardenError: card/login not found for ");
                text.append(name.as_str());
                text
            },
            ReconcileError::MissingObjectKey { field } => {
                let mut text = String::from_str("MissingObjectKey: ");
                text.append(field.path_str());
                text
            },
            ReconcileError::ClusterWriteFailed { reason } => {
                let mut text = String::from_str("Failed to create Secret: ");
                text.append(reason.as_str());
                text
            },
        }
    }
}

/// The key under which an item's notes are stored: the declared one, and
/// `notes` where none is declared.
pub open spec fn notes_key(declared: Option<Seq<char>>) -> Seq<char> {
    match declared {
        Some(key) => key,
        None => "notes"@,
    }
}

/// The data that an item gives a Secret.
///
/// An item with a `login` member gives the login's `username` and `password`,
/// whatever else it holds; both must be strings. An item without a `login`
/// gives its `notes`, which must be a string, under [`notes_key`]. Any other
/// item gives nothing.
pub open spec fn secret_entries(item: JsonValue, declared_key: Option<Seq<char>>) -> Option<
    Map<Seq<char>, Seq<char>>,
> {
    match item.member("login"@) {
        Some(login) => match (
            login.member_or_null("username"@).text(),
            login.member_or_null("password"@).text(),
        ) {
            (Some(username), Some(password)) => Some(
                Map::<Seq<char>, Seq<char>>::empty().insert("username"@, username).insert(
                    "password"@,
                    password,
                ),
            ),
            _ => None,
        },
        None => match item.member_or_null("notes"@).text() {
            Some(notes) => Some(
                Map::<Seq<char>, Seq<char>>::empty().insert(notes_key(declared_key), notes),
            ),
            None => None,
        },
    }
}

/// The data that `item` gives a Secret, see [`secret_entries`].
pub fn secret_data(item: &Json, declared_key: &Option<String>) -> (data: Option<StringMap<String>>)
    ensures
        match data {
            Some(data) => secret_entries(item@, declared_key.deep_view()) == Some(data@),
            None => secret_entries(item@, declared_key.deep_view()) is None,
        },
{
    let mut data: StringMap<String> = StringMap::new();
    match item.get("login") {
        Some(login) => match (login.str_member("username"), login.str_member("password")) {
            (Some(username), Some(password)) => {
                data.insert("username".to_owned(), username.to_owned());
                data.insert("password".to_owned(), password.to_owned());
                Some(data)
            },
            _ => None,
        },
        None => match item.str_member("notes") {
            Some(notes) => {
                let key = match declared_key {
                    Some(key) => key.clone(),
                    None => "notes".to_owned(),
                };
                data.insert(key, notes.to_owned());
                Some(data)
            },
            None => None,
        },
    }
}

/// The outcome of the first half of a pass, by views.
pub open spec fn outcome_view(outcome: Result<TargetSecret, ReconcileError>) -> Result<
    TargetSecretView,
    ReconcileErrorView,
> {
    match outcome {
        Ok(secret) => Ok(secret@),
        Err(error) => Err(error@),
    }
}

/// What the first half of a pass comes to for an object, a cache and the
/// time of the pass.
///
/// The item is looked up by the declared name, then read for its data, then
/// the object's identity is asked for: namespace, name and id, in this order.
/// The first thing that is missing ends the pass with its error. Otherwise
/// the Secret has the object's name and namespace, names the object as its
/// controller, carries the time in its one annotation, and holds the item's
/// data and the declared type.
pub open spec fn planned(
    resource: BitwardenSecretView,
    cache: Map<Seq<char>, JsonValue>,
    stamp: Seq<char>,
) -> Result<TargetSecretView, ReconcileErrorView> {
    let wanted = resource.spec.name;
    if !cache.contains_key(wanted) {
        Err(ReconcileErrorView::ItemNotFound { name: wanted })
    } else {
        match secret_entries(cache[wanted], resource.spec.key) {
            None => Err(ReconcileErrorView::SecretShapeUnresolvable { name: wanted }),
            Some(data) => match resource.metadata.namespace {
                None => Err(ReconcileErrorView::MissingObjectKey { field: IdentityField::Namespace }),
                Some(namespace) => match resource.metadata.name {
                    None => Err(ReconcileErrorView::MissingObjectKey { field: IdentityField::Name }),
                    Some(name) => match resource.metadata.uid {
                        None => Err(
                            ReconcileErrorView::MissingObjectKey { field: IdentityField::Uid },
                        ),
                        Some(uid) => Ok(
                            TargetSecretView {
                                name,
                                namespace,
                                owner: controller_reference(name, uid),
                                annotations: Map::<Seq<char>, Seq<char>>::empty().insert(
                                    LAST_RECONCILED@,
                                    stamp,
                                ),
                                string_data: data,
                                type_: resource.spec.type_,
                            },
                        ),
                    },
                },
            },
        }
    }
}

/// The first half of a pass at a given time, see [`planned`].
pub fn plan(resource: &BitwardenSecret, cache: &CredentialCache, stamp: String) -> (outcome: Result<
    TargetSecret,
    ReconcileError,
>)
    ensures
        outcome_view(outcome) == planned(resource@, cache@, stamp@),
{
    let item = match cache.get(resource.spec.name.as_str()) {
        Some(item) => item,
        None => {
            return Err(ReconcileError::ItemNotFound { name: resource.spec.name.clone() });
        },
    };
    let string_data = match secret_data(item, &resource.spec.key) {
        Some(data) => data,
        None => {
            return Err(ReconcileError::SecretShapeUnresolvable { name: resource.spec.name.clone() });
        },
    };
    let namespace = match &resource.metadata.namespace {
        Some(namespace) => namespace.clone(),
        None => {
            return Err(ReconcileError::MissingObjectKey { field: IdentityField::Namespace });
        },
    };
    let name = match &resource.metadata.name {
        Some(name) => name.clone(),
        None => {
            return Err(ReconcileError::MissingObjectKey { field: IdentityField::Name });
        },
    };
    let owner = match resource.controller_owner_ref() {
        Some(owner) => owner,
        None => {
            return Err(ReconcileError::MissingObjectKey { field: IdentityField::Uid });
        },
    };
    let mut annotations: StringMap<String> = StringMap::new();
    annotations.insert(LAST_RECONCILED.to_owned(), stamp);
    let type_ = match &resource.spec.type_ {
        Some(type_) => Some(type_.clone()),
        None => None,
    };
    Ok(TargetSecret { name, namespace, owner, annotations, string_data, type_ })
}

/// Reads the clock with `chrono::Utc::now` and writes the instant with
/// `to_rfc3339`. Nothing is assumed of the text, which differs from call to
/// call. `chrono` gives up on a clock that stands before 1970.
#[verifier::external_body]
fn utc_now_rfc3339() -> String {
    chrono::Utc::now().to_rfc3339()
}

/// The first half of a pass, now: what to write for `resource`, or why
/// nothing can be written. The outcome is that of [`plan`] at the time that
/// the clock shows.
pub fn reconcile(resource: &BitwardenSecret, cache: &CredentialCache) -> (outcome: Result<
    TargetSecret,
    ReconcileError,
>)
    ensures
        exists|stamp: Seq<char>| outcome_view(outcome) == planned(resource@, cache@, stamp),
{
    plan(resource, cache, utc_now_rfc3339())
}

/// What a pass that wrote its Secret leaves behind.
#[derive(Debug, Clone, Copy, PartialEq, Eq, Structural)]
pub struct Completion {
    /// The time of the pass in seconds since 1970, for the gauge of the last
    /// successful pass.
    pub reconciled_at: u64,
    /// When to look at the object again.
    pub action: Action,
}

/// The second half of a pass: from the cluster's answer to the write, and
/// the time, to what happens next. After a write that went through the
/// object is looked at again in [`REQUEUE_AFTER_SUCCESS_SECS`]; a write that
/// was turned down is an error that carries the cluster's reason.
pub fn conclude(applied: Result<(), String>, now_unix_secs: u64) -> (outcome: Result<
    Completion,
    ReconcileError,
>)
    ensures
        match applied {
            Ok(_) => outcome == Ok::<Completion, ReconcileError>(
                Completion {
                    reconciled_at: now_unix_secs,
                    action: Action::Requeue { after_secs: REQUEUE_AFTER_SUCCESS_SECS },
                },
            ),
            Err(reason) => outcome matches Err(error) && error@ == (ReconcileErrorView::ClusterWriteFailed {
                reason: reason@,
            }),
        },
{
    match applied {
        Ok(_) => Ok(
            Completion {
                reconciled_at: now_unix_secs,
                action: Action::Requeue { after_secs: REQUEUE_AFTER_SUCCESS_SECS },
            },
        ),
        Err(reason) => Err(ReconcileError::ClusterWriteFailed { reason }),
    }
}

/// What follows a pass that failed: whatever the error, the object is looked
/// at again in [`REQUEUE_AFTER_FAILURE_SECS`]. No error ends the retries.
pub fn error_policy(error: &ReconcileError) -> (action: Action)
    ensures
        action == (Action::Requeue { after_secs: REQUEUE_AFTER_FAILURE_SECS }),
{
    Action::Requeue { after_secs: REQUEUE_AFTER_FAILURE_SECS }
}

/// A login's username and password, as the data of a Secret.
pub open spec fn login_entries(username: Seq<char>, password: Seq<char>) -> Map<Seq<char>, Seq<char>> {
    Map::<Seq<char>, Seq<char>>::empty().insert("username"@, username).insert("password"@, password)
}

/// Whether `item` has a login with the string `username` and the string
/// `password`.
pub open spec fn has_login(item: JsonValue, username: Seq<char>, password: Seq<char>) -> bool {
    item.member("login"@) matches Some(login) && login.member_or_null("username"@).text() == Some(
        username,
    ) && login.member_or_null("password"@).text() == Some(password)
}

/// Whether `item` has no login, and the string `notes` as its notes.
pub open spec fn has_only_notes(item: JsonValue, notes: Seq<char>) -> bool {
    item.member("login"@) is None && item.member_or_null("notes"@).text() == Some(notes)
}

/// Login takes precedence. An item with a login gives a Secret exactly the
/// login's username and password, under the keys `username` and `password`:
/// whatever notes the item has, and whatever key is declared. A pass over
/// such an item writes that data, unless the declaring object lacks a part
/// of its identity.
pub proof fn lemma_login_takes_precedence(
    item: JsonValue,
    username: Seq<char>,
    password: Seq<char>,
    resource: BitwardenSecretView,
    cache: Map<Seq<char>, JsonValue>,
    stamp: Seq<char>,
)
    requires
        has_login(item, username, password),
        cache.contains_key(resource.spec.name),
        cache[resource.spec.name] == item,
    ensures
        secret_entries(item, resource.spec.key) == Some(login_entries(username, password)),
        login_entries(username, password).dom() == set!["username"@, "password"@],
        login_entries(username, password)["username"@] == username,
        login_entries(username, password)["password"@] == password,
        match planned(resource, cache, stamp) {
            Ok(secret) => secret.string_data == login_entries(username, password),
            Err(error) => error is MissingObjectKey,
        },
{
    reveal_strlit("username");
    reveal_strlit("password");
    assert("username"@[0] != "password"@[0]);
    assert(login_entries(username, password).dom() =~= set!["username"@, "password"@]);
}

/// An item that has only notes, read with no key declared, gives a Secret
/// one entry: the notes under the key `notes`.
pub proof fn lemma_notes_default_key(item: JsonValue, notes: Seq<char>)
    requires
        has_only_notes(item, notes),
    ensures
        secret_entries(item, None) == Some(Map::<Seq<char>, Seq<char>>::empty().insert("notes"@, notes)),
        secret_entries(item, None)->0.dom() == set!["notes"@],
{
    assert(secret_entries(item, None)->0.dom() =~= set!["notes"@]);
}

/// An item that has only notes, read with a key declared, gives a Secret
/// exactly one entry: the notes under the declared key.
pub proof fn lemma_notes_declared_key(item: JsonValue, notes: Seq<char>, key: Seq<char>)
    requires
        has_only_notes(item, notes),
    ensures
        secret_entries(item, Some(key)) == Some(Map::<Seq<char>, Seq<char>>::empty().insert(key, notes)),
        secret_entries(item, Some(key))->0.dom() == set![key],
        secret_entries(item, Some(key))->0.dom().len() == 1,
        secret_entries(item, Some(key))->0[key] == notes,
{
    assert(secret_entries(item, Some(key))->0.dom() =~= set![key]);
}

/// Reconciling is idempotent. Two passes over the same object and the same
/// cache end alike: in the same error, or in two Secrets that differ at most
/// in the time under `lastReconciled`.
pub proof fn lemma_reconcile_idempotent(
    resource: BitwardenSecretView,
    cache: Map<Seq<char>, JsonValue>,
    first_stamp: Seq<char>,
    second_stamp: Seq<char>,
)
    ensures
        match (planned(resource, cache, first_stamp), planned(resource, cache, second_stamp)) {
            (Ok(first), Ok(second)) => {
                &&& first == TargetSecretView { annotations: first.annotations, ..second }
                &&& first.annotations.remove(LAST_RECONCILED@) == second.annotations.remove(
                    LAST_RECONCILED@,
                )
                &&& first.annotations == second.annotations.insert(LAST_RECONCILED@, first_stamp)
            },
            (Err(first), Err(second)) => first == second,
            _ => false,
        },
{
    match (planned(resource, cache, first_stamp), planned(resource, cache, second_stamp)) {
        (Ok(first), Ok(second)) => {
            assert(first.annotations.remove(LAST_RECONCILED@) =~= second.annotations.remove(
                LAST_RECONCILED@,
            ));
            assert(first.annotations =~= second.annotations.insert(LAST_RECONCILED@, first_stamp));
        },
        _ => {},
    }
}

/// A pass for an item that the cache does not hold ends in `ItemNotFound`
/// with the item's name, at any time and whatever else the object says: it
/// yields no Secret to write.
pub proof fn lemma_missing_item(
    resource: BitwardenSecretView,
    cache: Map<Seq<char>, JsonValue>,
    stamp: Seq<char>,
)
    requires
        !cache.contains_key(resource.spec.name),
    ensures
        planned(resource, cache, stamp) == Err::<TargetSecretView, ReconcileErrorView>(
            ReconcileErrorView::ItemNotFound { name: resource.spec.name },
        ),
{
}

} // verus!
