//! The remote objects as this crate holds them: what an object is called
//! and what it serialises to, the ordered collections of such objects, and
//! the cached state of one project.

use vstd::prelude::*;
use vstd::string::*;
use vstd::utf8::*;
use crate::text::str_eq;

verus! {

/// The most objects that a collection holds, so that every index fits the
/// item field of an inode and the length itself does too.
pub const MAX_ITEMS: usize = 0xffff_ffff;

/// One remote object: its stable identifier and its serialised form.
#[derive(Debug, PartialEq, Eq)]
pub struct RemoteObject {
    pub identifier: String,
    pub json: String,
}

/// What a remote object is, mathematically: the characters of its
/// identifier and the bytes that a read of it yields.
pub struct ObjectView {
    pub identifier: Seq<char>,
    pub json: Seq<u8>,
}

impl View for RemoteObject {
    type V = ObjectView;

    open spec fn view(&self) -> ObjectView {
        ObjectView { identifier: self.identifier@, json: encode_utf8(self.json@) }
    }
}

impl Clone for RemoteObject {
    fn clone(&self) -> (object: RemoteObject)
        ensures
            object@ == self@,
    {
        RemoteObject { identifier: self.identifier.clone(), json: self.json.clone() }
    }
}

impl RemoteObject {
    pub fn new(identifier: String, json: String) -> (object: RemoteObject)
        ensures
            object.identifier == identifier,
            object.json == json,
    {
        RemoteObject { identifier, json }
    }

    /// The serialised bytes.
    pub fn content(&self) -> (bytes: &[u8])
        ensures
            bytes@ == self@.json,
    {
        self.json.as_str().as_bytes()
    }
}

/// The views of a sequence of objects, in order.
pub open spec fn object_views(items: Seq<RemoteObject>) -> Seq<ObjectView> {
    Seq::new(items.len(), |i: int| items[i]@)
}

/// Index of the first object at or after `from` whose identifier is
/// `identifier`; the length of `items` where there is none.
pub open spec fn position_from(items: Seq<ObjectView>, identifier: Seq<char>, from: int) -> int
    decreases items.len() - from,
{
    if from < 0 || from >= items.len() {
        items.len() as int
    } else if items[from].identifier == identifier {
        from
    } else {
        position_from(items, identifier, from + 1)
    }
}

/// Index of the first object whose identifier is `identifier`; the length
/// of `items` where there is none.
pub open spec fn position(items: Seq<ObjectView>, identifier: Seq<char>) -> int {
    position_from(items, identifier, 0)
}

/// `position_from` finds the first match at or after `from` and nothing else.
pub proof fn lemma_position_from(items: Seq<ObjectView>, identifier: Seq<char>, from: int)
    requires
        0 <= from <= items.len(),
    ensures
        from <= position_from(items, identifier, from) <= items.len(),
        forall|j: int|
            from <= j < position_from(items, identifier, from) ==> items[j].identifier
                != identifier,
        position_from(items, identifier, from) < items.len() ==> items[position_from(
            items,
            identifier,
            from,
        )].identifier == identifier,
    decreases items.len() - from,
{
    if from < items.len() && items[from].identifier != identifier {
        lemma_position_from(items, identifier, from + 1);
    }
}

/// `position` is the least index that holds the identifier, and the length
/// exactly when no index does.
pub proof fn lemma_position(items: Seq<ObjectView>, identifier: Seq<char>)
    ensures
        0 <= position(items, identifier) <= items.len(),
        forall|j: int|
            0 <= j < position(items, identifier) ==> items[j].identifier != identifier,
        position(items, identifier) < items.len() ==> items[position(
            items,
            identifier,
        )].identifier == identifier,
{
    lemma_position_from(items, identifier, 0);
}

/// An index that holds the identifier, with none before it that does, is
/// the position of the identifier.
pub proof fn lemma_position_is(items: Seq<ObjectView>, identifier: Seq<char>, index: int)
    requires
        0 <= index < items.len(),
        items[index].identifier == identifier,
        forall|j: int| 0 <= j < index ==> items[j].identifier != identifier,
    ensures
        position(items, identifier) == index,
{
    lemma_position(items, identifier);
}

/// An ordered collection of remote objects of one kind.
#[derive(Debug, PartialEq, Eq)]
pub struct Collection {
    items: Vec<RemoteObject>,
}

impl View for Collection {
    type V = Seq<ObjectView>;

    closed spec fn view(&self) -> Seq<ObjectView> {
        object_views(self.items@)
    }
}

impl Clone for Collection {
    fn clone(&self) -> (collection: Collection)
        ensures
            collection@ == self@,
    {
        proof {
            use_type_invariant(self);
        }
        let mut items: Vec<RemoteObject> = Vec::new();
        let mut i: usize = 0;
        while i < self.items.len()
            invariant
                i <= self.items@.len(),
                self.items@.len() <= MAX_ITEMS,
                items@.len() == i,
                forall|j: int| 0 <= j < i ==> items@[j]@ == self.items@[j]@,
            decreases self.items@.len() - i,
        {
            items.push(self.items[i].clone());
            i += 1;
        }
        assert(object_views(items@) =~= object_views(self.items@));
        Collection { items }
    }
}

impl Collection {
    #[verifier::type_invariant]
    spec fn within_limit(self) -> bool {
        self.items@.len() <= MAX_ITEMS
    }

    /// Wraps the objects, unless there are more than `MAX_ITEMS` of them.
    pub fn new(items: Vec<RemoteObject>) -> (collection: Option<Collection>)
        ensures
            items@.len() <= MAX_ITEMS ==> collection is Some && collection->0@ == object_views(
                items@,
            ),
            items@.len() > MAX_ITEMS ==> collection is None,
    {
        if items.len() <= MAX_ITEMS {
            Some(Collection { items })
        } else {
            None
        }
    }

    /// The objects, in the order of the collection.
    pub fn items(&self) -> (items: &Vec<RemoteObject>)
        ensures
            object_views(items@) == self@,
            items@.len() <= MAX_ITEMS,
    {
        proof {
            use_type_invariant(self);
        }
        &self.items
    }

    /// Number of objects.
    pub fn len(&self) -> (n: u32)
        ensures
            n == self@.len(),
    {
        proof {
            use_type_invariant(self);
        }
        self.items.len() as u32
    }

    /// The object at `index`, if there is one.
    pub fn get(&self, index: u32) -> (object: Option<&RemoteObject>)
        ensures
            index < self@.len() ==> object is Some && object->0@ == self@[index as int],
            index >= self@.len() ==> object is None,
    {
        if (index as usize) < self.items.len() {
            Some(&self.items[index as usize])
        } else {
            None
        }
    }

    /// Searches for the first object whose identifier is exactly
    /// `identifier`.  Returns its index and the object; on a miss the index
    /// is the length of the collection and there is no object.
    pub fn find_by_identifier(&self, identifier: &str) -> (found: (u32, Option<&RemoteObject>))
        ensures
            found.0 == position(self@, identifier@),
            found.0 <= self@.len(),
            forall|j: int| 0 <= j < found.0 ==> self@[j].identifier != identifier@,
            found.0 < self@.len() ==> self@[found.0 as int].identifier == identifier@,
            found.0 < self@.len() ==> found.1 is Some && found.1->0@ == self@[found.0 as int],
            found.0 == self@.len() ==> found.1 is None,
    {
        proof {
            use_type_invariant(self);
        }
        let mut i: usize = 0;
        while i < self.items.len()
            invariant
                i <= self.items@.len(),
                self.items@.len() <= MAX_ITEMS,
                self@ == object_views(self.items@),
                position(self@, identifier@) == position_from(self@, identifier@, i as int),
            decreases self.items@.len() - i,
        {
            if str_eq(self.items[i].identifier.as_str(), identifier) {
                proof {
                    lemma_position(self@, identifier@);
                }
                return (i as u32, Some(&self.items[i]));
            }
            i += 1;
        }
        proof {
            lemma_position(self@, identifier@);
        }
        (i as u32, None)
    }
}

/// The four documents that exist once in every project.
#[derive(Clone, Copy, Debug, PartialEq, Eq, Structural)]
pub enum Document {
    FeatureFlags,
    ProjectJson,
    Permissions,
    Roles,
}

/// The four collections that every project has.
#[derive(Clone, Copy, Debug, PartialEq, Eq, Structural)]
pub enum CollectionKind {
    Attributes,
    Facts,
    Metrics,
    Reports,
}

/// What is held of one project: each document and each collection, once it
/// has been fetched.
#[derive(Clone, Debug, PartialEq, Eq)]
pub struct Project {
    pub feature_flags: Option<String>,
    pub project_json: Option<String>,
    pub permissions: Option<String>,
    pub roles: Option<String>,
    pub attributes: Option<Collection>,
    pub facts: Option<Collection>,
    pub metrics: Option<Collection>,
    pub reports: Option<Collection>,
}

/// The state of one project, mathematically: the bytes of each document
/// and the objects of each collection, where they are held.
pub struct ProjectView {
    pub feature_flags: Option<Seq<u8>>,
    pub project_json: Option<Seq<u8>>,
    pub permissions: Option<Seq<u8>>,
    pub roles: Option<Seq<u8>>,
    pub attributes: Option<Seq<ObjectView>>,
    pub facts: Option<Seq<ObjectView>>,
    pub metrics: Option<Seq<ObjectView>>,
    pub reports: Option<Seq<ObjectView>>,
}

impl ProjectView {
    /// The bytes of a document, where it is held.
    pub open spec fn document(self, document: Document) -> Option<Seq<u8>> {
        match document {
            Document::FeatureFlags => self.feature_flags,
            Document::ProjectJson => self.project_json,
            Document::Permissions => self.permissions,
            Document::Roles => self.roles,
        }
    }

    /// The objects of a collection, where it is held.
    pub open spec fn collection(self, kind: CollectionKind) -> Option<Seq<ObjectView>> {
        match kind {
            CollectionKind::Attributes => self.attributes,
            CollectionKind::Facts => self.facts,
            CollectionKind::Metrics => self.metrics,
            CollectionKind::Reports => self.reports,
        }
    }

    /// The state after a collection has been stored; nothing else changes.
    pub open spec fn with_collection(self, kind: CollectionKind, items: Seq<ObjectView>) -> ProjectView {
        match kind {
            CollectionKind::Attributes => ProjectView { attributes: Some(items), ..self },
            CollectionKind::Facts => ProjectView { facts: Some(items), ..self },
            CollectionKind::Metrics => ProjectView { metrics: Some(items), ..self },
            CollectionKind::Reports => ProjectView { reports: Some(items), ..self },
        }
    }

    /// The state after a document has been stored; nothing else changes.
    pub open spec fn with_document(self, document: Document, bytes: Seq<u8>) -> ProjectView {
        match document {
            Document::FeatureFlags => ProjectView { feature_flags: Some(bytes), ..self },
            Document::ProjectJson => ProjectView { project_json: Some(bytes), ..self },
            Document::Permissions => ProjectView { permissions: Some(bytes), ..self },
            Document::Roles => ProjectView { roles: Some(bytes), ..self },
        }
    }

    /// Whether a fetch is due: the collection is not held, or a refresh is forced.
    pub open spec fn needs_fetch(self, kind: CollectionKind, force_refresh: bool) -> bool {
        force_refresh || self.collection(kind) is None
    }
}

/// The bytes of a document that may not be held.
pub open spec fn document_view(document: Option<String>) -> Option<Seq<u8>> {
    match document {
        Some(json) => Some(encode_utf8(json@)),
        None => None,
    }
}

/// The objects of a collection that may not be held.
pub open spec fn collection_view(collection: Option<Collection>) -> Option<Seq<ObjectView>> {
    match collection {
        Some(c) => Some(c@),
        None => None,
    }
}

impl View for Project {
    type V = ProjectView;

    open spec fn view(&self) -> ProjectView {
        ProjectView {
            feature_flags: document_view(self.feature_flags),
            project_json: document_view(self.project_json),
            permissions: document_view(self.permissions),
            roles: document_view(self.roles),
            attributes: collection_view(self.attributes),
            facts: collection_view(self.facts),
            metrics: collection_view(self.metrics),
            reports: collection_view(self.reports),
        }
    }
}

impl Project {
    /// A project of which nothing is held yet.
    pub fn new() -> (project: Project)
        ensures
            forall|d: Document| project@.document(d) is None,
            forall|k: CollectionKind| project@.collection(k) is None,
    {
        Project {
            feature_flags: None,
            project_json: None,
            permissions: None,
            roles: None,
            attributes: None,
            facts: None,
            metrics: None,
            reports: None,
        }
    }

    /// The bytes of a document, where it is held.
    pub fn document(&self, document: Document) -> (bytes: Option<&[u8]>)
        ensures
            self@.document(document) is Some ==> bytes is Some && bytes->0@ == self@.document(
                document,
            )->0,
            self@.document(document) is None ==> bytes is None,
    {
        let held = match document {
            Document::FeatureFlags => &self.feature_flags,
            Document::ProjectJson => &self.project_json,
            Document::Permissions => &self.permissions,
            Document::Roles => &self.roles,
        };
        match held {
            Some(json) => Some(json.as_str().as_bytes()),
            None => None,
        }
    }

    /// A collection, where it is held.
    pub fn collection(&self, kind: CollectionKind) -> (collection: Option<&Collection>)
        ensures
            self@.collection(kind) is Some ==> collection is Some && collection->0@
                == self@.collection(kind)->0,
            self@.collection(kind) is None ==> collection is None,
    {
        let held = match kind {
            CollectionKind::Attributes => &self.attributes,
            CollectionKind::Facts => &self.facts,
            CollectionKind::Metrics => &self.metrics,
            CollectionKind::Reports => &self.reports,
        };
        match held {
            Some(c) => Some(c),
            None => None,
        }
    }

    /// Whether the collection has to be fetched before it is read: it is
    /// not held yet, or the caller forces a refresh.
    pub fn needs_fetch(&self, kind: CollectionKind, force_refresh: bool) -> (due: bool)
        ensures
            due == self@.needs_fetch(kind, force_refresh),
    {
        force_refresh || self.collection(kind).is_none()
    }

    /// Holds a fetched collection from now on, in place of an earlier one.
    pub fn store(&mut self, kind: CollectionKind, collection: Collection)
        ensures
            final(self)@ == old(self)@.with_collection(kind, collection@),
    {
        match kind {
            CollectionKind::Attributes => { self.attributes = Some(collection); },
            CollectionKind::Facts => { self.facts = Some(collection); },
            CollectionKind::Metrics => { self.metrics = Some(collection); },
            CollectionKind::Reports => { self.reports = Some(collection); },
        }
    }

    /// Holds a document from now on, in place of an earlier one.
    pub fn set_document(&mut self, document: Document, json: String)
        ensures
            final(self)@ == old(self)@.with_document(document, encode_utf8(json@)),
    {
        match document {
            Document::FeatureFlags => { self.feature_flags = Some(json); },
            Document::ProjectJson => { self.project_json = Some(json); },
            Document::Permissions => { self.permissions = Some(json); },
            Document::Roles => { self.roles = Some(json); },
        }
    }
}

} // verus!
