//! The state of the driver: the projects of the session, in the order in
//! which the platform lists them, each with what is held of it.

use vstd::prelude::*;
use crate::object::{
    Collection, CollectionKind, Document, ObjectView, Project, ProjectView, MAX_ITEMS,
};

verus! {

/// The driver's state.
#[derive(Clone, Debug, PartialEq, Eq)]
pub struct GoodDataFS {
    pub projects: Vec<Project>,
}

impl View for GoodDataFS {
    type V = Seq<ProjectView>;

    open spec fn view(&self) -> Seq<ProjectView> {
        Seq::new(self.projects@.len(), |i: int| self.projects@[i]@)
    }
}

/// The project with the one-based `ordinal`; none for 0, which marks a
/// handle outside every project, and none past the last project.
pub open spec fn project_at(fs: Seq<ProjectView>, ordinal: u16) -> Option<ProjectView> {
    if 1 <= ordinal <= fs.len() {
        Some(fs[ordinal - 1])
    } else {
        None
    }
}

/// What holds of every state that the driver can be in: no collection that
/// is held has more than `MAX_ITEMS` objects, so that the index of each
/// fits the item field of an inode.
pub open spec fn within_limits(fs: Seq<ProjectView>) -> bool {
    forall|i: int, kind: CollectionKind|
        0 <= i < fs.len() && (#[trigger] fs[i].collection(kind)) is Some ==> fs[i].collection(
            kind,
        )->0.len() <= MAX_ITEMS
}

/// Whether the collection has to be fetched before it is read: the project
/// exists, and the collection is not held or a refresh is forced.
pub open spec fn needs_fetch(
    fs: Seq<ProjectView>,
    ordinal: u16,
    kind: CollectionKind,
    force_refresh: bool,
) -> bool {
    match project_at(fs, ordinal) {
        Some(project) => project.needs_fetch(kind, force_refresh),
        None => false,
    }
}

/// The state after a collection of an existing project has been stored;
/// the same state where there is no such project.
pub open spec fn with_collection(
    fs: Seq<ProjectView>,
    ordinal: u16,
    kind: CollectionKind,
    items: Seq<ObjectView>,
) -> Seq<ProjectView> {
    match project_at(fs, ordinal) {
        Some(project) => fs.update(ordinal - 1, project.with_collection(kind, items)),
        None => fs,
    }
}

/// The state after a document of an existing project has been stored; the
/// same state where there is no such project.
pub open spec fn with_document(
    fs: Seq<ProjectView>,
    ordinal: u16,
    document: Document,
    bytes: Seq<u8>,
) -> Seq<ProjectView> {
    match project_at(fs, ordinal) {
        Some(project) => fs.update(ordinal - 1, project.with_document(document, bytes)),
        None => fs,
    }
}

/// The collection of a project as it is held; none where the project does
/// not exist or the collection has not been fetched.
pub open spec fn held_collection(
    fs: Seq<ProjectView>,
    ordinal: u16,
    kind: CollectionKind,
) -> Option<Seq<ObjectView>> {
    match project_at(fs, ordinal) {
        Some(project) => project.collection(kind),
        None => None,
    }
}

/// The state after a fetch that was due: with what was fetched in place,
/// or unchanged where the fetch gave nothing.
pub open spec fn after_fetch(
    fs: Seq<ProjectView>,
    ordinal: u16,
    kind: CollectionKind,
    fetched: Option<Collection>,
) -> Seq<ProjectView> {
    match fetched {
        Some(collection) => with_collection(fs, ordinal, kind, collection@),
        None => fs,
    }
}

impl GoodDataFS {
    /// A driver state over the given projects.
    pub fn new(projects: Vec<Project>) -> (fs: GoodDataFS)
        ensures
            fs.projects == projects,
    {
        GoodDataFS { projects }
    }

    /// The project with the one-based `ordinal`.
    pub fn project(&self, ordinal: u16) -> (project: Option<&Project>)
        ensures
            project_at(self@, ordinal) is Some ==> project is Some && project->0@ == project_at(
                self@,
                ordinal,
            )->0,
            project_at(self@, ordinal) is None ==> project is None,
    {
        if ordinal >= 1 && (ordinal as usize) <= self.projects.len() {
            Some(&self.projects[(ordinal - 1) as usize])
        } else {
            None
        }
    }

    /// Whether the collection has to be fetched before it is read.
    pub fn needs_fetch(&self, ordinal: u16, kind: CollectionKind, force_refresh: bool) -> (due: bool)
        ensures
            due == needs_fetch(self@, ordinal, kind, force_refresh),
    {
        match self.project(ordinal) {
            Some(project) => project.needs_fetch(kind, force_refresh),
            None => false,
        }
    }

    /// Holds a fetched collection from now on.  Returns whether the project
    /// exists; where it does not, nothing changes.
    pub fn store(&mut self, ordinal: u16, kind: CollectionKind, collection: Collection) -> (stored:
        bool)
        ensures
            stored == (project_at(old(self)@, ordinal) is Some),
            final(self)@ == with_collection(old(self)@, ordinal, kind, collection@),
    {
        if ordinal >= 1 && (ordinal as usize) <= self.projects.len() {
            let ghost before = self@;
            let index = (ordinal - 1) as usize;
            self.projects[index].store(kind, collection);
            assert(self@ =~= before.update(
                index as int,
                before[index as int].with_collection(kind, collection@),
            ));
            true
        } else {
            false
        }
    }

    /// Cache-first access to a collection.  `fetch` is called only where a
    /// fetch is due: the project exists and the collection is not held or a
    /// refresh is forced.  What it returns is held from then on; where it
    /// returns nothing, the state stays as it was, an earlier collection
    /// included.  The result is the collection as it is held afterwards.
    pub fn get_or_fetch<F: FnOnce() -> Option<Collection>>(
        &mut self,
        ordinal: u16,
        kind: CollectionKind,
        force_refresh: bool,
        fetch: F,
    ) -> (held: Option<&Collection>)
        requires
            call_requires(fetch, ()),
        ensures
            !needs_fetch(old(self)@, ordinal, kind, force_refresh) ==> final(self)@ == old(self)@,
            needs_fetch(old(self)@, ordinal, kind, force_refresh) ==> exists|
                fetched: Option<Collection>,
            |
                #[trigger] call_ensures(fetch, (), fetched) && final(self)@ == after_fetch(
                    old(self)@,
                    ordinal,
                    kind,
                    fetched,
                ),
            held_collection(final(self)@, ordinal, kind) is Some ==> held is Some && held->0@
                == held_collection(final(self)@, ordinal, kind)->0,
            held_collection(final(self)@, ordinal, kind) is None ==> held is None,
    {
        if self.needs_fetch(ordinal, kind, force_refresh) {
            let fetched = fetch();
            let ghost outcome = fetched;
            match fetched {
                Some(collection) => {
                    self.store(ordinal, kind, collection);
                },
                None => {},
            }
            assert(call_ensures(fetch, (), outcome) && self@ == after_fetch(
                old(self)@,
                ordinal,
                kind,
                outcome,
            ));
        }
        match self.project(ordinal) {
            Some(project) => project.collection(kind),
            None => None,
        }
    }

    /// Holds a document from now on.  Returns whether the project exists;
    /// where it does not, nothing changes.
    pub fn set_document(&mut self, ordinal: u16, document: Document, json: String) -> (stored: bool)
        ensures
            stored == (project_at(old(self)@, ordinal) is Some),
            final(self)@ == with_document(
                old(self)@,
                ordinal,
                document,
                vstd::utf8::encode_utf8(json@),
            ),
    {
        if ordinal >= 1 && (ordinal as usize) <= self.projects.len() {
            let ghost before = self@;
            let ghost bytes = vstd::utf8::encode_utf8(json@);
            let index = (ordinal - 1) as usize;
            self.projects[index].set_document(document, json);
            assert(self@ =~= before.update(
                index as int,
                before[index as int].with_document(document, bytes),
            ));
            true
        } else {
            false
        }
    }
}

} // verus!
