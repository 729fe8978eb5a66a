//! The request handlers of a project's tree.
//!
//! Each handler decodes the inode number, branches on its category and
//! reserved tag, and answers from the registry of fixed entries or from the
//! objects of a collection.  Each is a total function: every inode number,
//! meaningful or not, gets exactly one reply, and what cannot be answered
//! from the state is answered "not found".

use vstd::prelude::*;
use vstd::std_specs::convert::IntoSpec;
use vstd::string::*;
use crate::constants::{Category, ReservedFile, DEFAULT_CREATE_TIME, DEFAULT_TTL};
use crate::fs::{project_at, GoodDataFS};
use crate::helpers::{create_inode_file_attributes, file_attributes, FileKind};
use crate::inode::Inode;
use crate::item::{ItemTable, ProjectItem};
use crate::object::{
    position, Collection, CollectionKind, Document, ObjectView, Project, ProjectView,
    RemoteObject,
};
use crate::reply::{
    entry_views, AttrReply, DataReply, DirEntry, DirEntryView, DirReply, EntryReply,
};
use crate::text::{
    filename_from_identifier, filename_of, identifier_from_filename, identifier_of, read_window,
    str_eq, window,
};

verus! {

/// The collection that a category tag names, if it names one.
pub open spec fn collection_of(category: u8) -> Option<CollectionKind> {
    match Category::spec_from_code(category) {
        Some(Category::MetadataAttributes) => Some(CollectionKind::Attributes),
        Some(Category::MetadataFacts) => Some(CollectionKind::Facts),
        Some(Category::MetadataMetrics) => Some(CollectionKind::Metrics),
        Some(Category::MetadataReports) => Some(CollectionKind::Reports),
        _ => None,
    }
}

/// The document that a reserved tag names, if it names one.
pub open spec fn document_of(reserved: u8) -> Option<Document> {
    match ReservedFile::spec_from_code(reserved) {
        ReservedFile::FeatureFlagsJson => Some(Document::FeatureFlags),
        ReservedFile::ProjectJson => Some(Document::ProjectJson),
        ReservedFile::PermissionsJson => Some(Document::Permissions),
        ReservedFile::RolesJson => Some(Document::Roles),
        _ => None,
    }
}

/// The registry entry that serves a document.
pub open spec fn document_item(document: Document) -> ProjectItem {
    match document {
        Document::FeatureFlags => ProjectItem::FeatureFlags,
        Document::ProjectJson => ProjectItem::ProjectJson,
        Document::Permissions => ProjectItem::UserPermissions,
        Document::Roles => ProjectItem::UserRoles,
    }
}

/// The registry entry of a collection's directory.
pub open spec fn collection_item(kind: CollectionKind) -> ProjectItem {
    match kind {
        CollectionKind::Attributes => ProjectItem::Attributes,
        CollectionKind::Facts => ProjectItem::Facts,
        CollectionKind::Metrics => ProjectItem::Metrics,
        CollectionKind::Reports => ProjectItem::Reports,
    }
}

/// The registry entry that a name resolves to by itself, whatever the
/// parent: one of the four document names, the two directory names of a
/// project, or the five directory names of the metadata root.
pub open spec fn named_item(name: Seq<char>) -> Option<ProjectItem> {
    if name == ProjectItem::FeatureFlags.spec_path() {
        Some(ProjectItem::FeatureFlags)
    } else if name == ProjectItem::ProjectJson.spec_path() {
        Some(ProjectItem::ProjectJson)
    } else if name == ProjectItem::Ldm.spec_path() {
        Some(ProjectItem::Ldm)
    } else if name == ProjectItem::Metadata.spec_path() {
        Some(ProjectItem::Metadata)
    } else if name == ProjectItem::Attributes.spec_path() {
        Some(ProjectItem::Attributes)
    } else if name == ProjectItem::Facts.spec_path() {
        Some(ProjectItem::Facts)
    } else if name == ProjectItem::Metrics.spec_path() {
        Some(ProjectItem::Metrics)
    } else if name == ProjectItem::Reports.spec_path() {
        Some(ProjectItem::Reports)
    } else if name == ProjectItem::ReportDefinitions.spec_path() {
        Some(ProjectItem::ReportDefinitions)
    } else if name == ProjectItem::UserPermissions.spec_path() {
        Some(ProjectItem::UserPermissions)
    } else if name == ProjectItem::UserRoles.spec_path() {
        Some(ProjectItem::UserRoles)
    } else {
        None
    }
}

/// The object at index `item` of a collection of a project, where the
/// project exists, the collection is held and the index is within it.
pub open spec fn object_at(
    fs: Seq<ProjectView>,
    project: u16,
    kind: CollectionKind,
    item: u32,
) -> Option<ObjectView> {
    match project_at(fs, project) {
        Some(p) => match p.collection(kind) {
            Some(items) => if item < items.len() {
                Some(items[item as int])
            } else {
                None
            },
            None => None,
        },
        None => None,
    }
}

/// Reply to a resolution of `identifier` in a collection directory: the
/// first object with that identifier, as an indexed item of the parent's
/// project and category, with the metadata of a file as long as the
/// object's serialised form; "not found" where no object has it.
pub open spec fn object_entry_reply(
    fs: Seq<ProjectView>,
    parent: Inode,
    kind: CollectionKind,
    identifier: Seq<char>,
) -> EntryReply {
    match project_at(fs, parent.project) {
        Some(p) => match p.collection(kind) {
            Some(items) => {
                let index = position(items, identifier);
                if index < items.len() {
                    EntryReply::Entry {
                        ttl: DEFAULT_TTL,
                        attr: file_attributes(
                            (Inode {
                                project: parent.project,
                                category: parent.category,
                                item: index as u32,
                                reserved: ReservedFile::IndexedItem.spec_code(),
                            }).pack(),
                            items[index].json.len() as u64,
                            DEFAULT_CREATE_TIME,
                        ),
                        generation: 0,
                    }
                } else {
                    EntryReply::NotFound
                }
            },
            None => EntryReply::NotFound,
        },
        None => EntryReply::NotFound,
    }
}

/// Reply to a resolution of `name` under `parent`.  A fixed name goes to
/// its registry entry.  Any other name resolves only in the directory of a
/// collection, to the object whose identifier is the name without its
/// `.json` suffix.
pub open spec fn lookup_reply(fs: Seq<ProjectView>, parent: u64, name: Seq<char>) -> EntryReply {
    match named_item(name) {
        Some(item) => item.lookup_reply(fs, parent),
        None => {
            let inode = Inode::unpack(parent);
            match collection_of(inode.category) {
                Some(kind) => if inode.reserved == ReservedFile::KeepMe.spec_code() {
                    object_entry_reply(fs, inode, kind, identifier_of(name))
                } else {
                    EntryReply::NotFound
                },
                None => EntryReply::NotFound,
            }
        },
    }
}

/// Reply to an attribute query for an inode of a collection category: the
/// directory's metadata for the directory tag, the metadata of a file as
/// long as the object's serialised form for an indexed item, "not found"
/// for any other tag and for an index outside the collection.
pub open spec fn collection_attr_reply(
    fs: Seq<ProjectView>,
    ino: u64,
    kind: CollectionKind,
) -> AttrReply {
    let inode = Inode::unpack(ino);
    match ReservedFile::spec_from_code(inode.reserved) {
        ReservedFile::KeepMe => collection_item(kind).getattr_reply(fs, ino),
        ReservedFile::IndexedItem => match object_at(fs, inode.project, kind, inode.item) {
            Some(object) => AttrReply::Attr {
                ttl: DEFAULT_TTL,
                attr: file_attributes(ino, object.json.len() as u64, DEFAULT_CREATE_TIME),
            },
            None => AttrReply::NotFound,
        },
        _ => AttrReply::NotFound,
    }
}

/// Reply to an attribute query for `ino`.
pub open spec fn getattr_reply(fs: Seq<ProjectView>, ino: u64) -> AttrReply {
    let inode = Inode::unpack(ino);
    if inode.project == 0 {
        AttrReply::NotFound
    } else {
        match Category::spec_from_code(inode.category) {
            Some(Category::Internal) => match document_of(inode.reserved) {
                Some(document) => document_item(document).getattr_reply(fs, ino),
                None => AttrReply::NotFound,
            },
            Some(Category::Ldm) => ProjectItem::Ldm.getattr_reply(fs, ino),
            Some(Category::Metadata) => ProjectItem::Metadata.getattr_reply(fs, ino),
            Some(Category::MetadataAttributes) => collection_attr_reply(
                fs,
                ino,
                CollectionKind::Attributes,
            ),
            Some(Category::MetadataFacts) => collection_attr_reply(fs, ino, CollectionKind::Facts),
            Some(Category::MetadataMetrics) => collection_attr_reply(
                fs,
                ino,
                CollectionKind::Metrics,
            ),
            Some(Category::MetadataReports) => collection_attr_reply(
                fs,
                ino,
                CollectionKind::Reports,
            ),
            Some(Category::MetadataReportDefinition) => ProjectItem::ReportDefinitions.getattr_reply(
                fs,
                ino,
            ),
            Some(Category::MetadataLast) => AttrReply::NotFound,
            None => AttrReply::NotFound,
        }
    }
}

/// Reply to a read in the metadata range: the window of the serialised
/// form of the object that the category and the item index name; "not
/// found" (`None`) where the category names no collection or the index no
/// object.
pub open spec fn metadata_read_reply(
    fs: Seq<ProjectView>,
    inode: Inode,
    offset: u64,
    size: u32,
) -> Option<Seq<u8>> {
    match collection_of(inode.category) {
        Some(kind) => match object_at(fs, inode.project, kind, inode.item) {
            Some(object) => Some(window(object.json, offset as int, size as int)),
            None => None,
        },
        None => None,
    }
}

/// The serialised form that a read of `ino` reads from.  A document tag
/// names the document of the project whatever the category; any other tag
/// names the object at the item index of the collection that the category
/// names.  `None` where there is no such content in the state.
pub open spec fn content_of(fs: Seq<ProjectView>, ino: u64) -> Option<Seq<u8>> {
    let inode = Inode::unpack(ino);
    match document_of(inode.reserved) {
        Some(document) => match project_at(fs, inode.project) {
            Some(project) => project.document(document),
            None => None,
        },
        None => match collection_of(inode.category) {
            Some(kind) => match object_at(fs, inode.project, kind, inode.item) {
                Some(object) => Some(object.json),
                None => None,
            },
            None => None,
        },
    }
}

/// Reply to a read of `size` bytes at `offset` from `ino`: that window of
/// the content that `ino` names, or "not found" (`None`) where it names none.
pub open spec fn read_reply(fs: Seq<ProjectView>, ino: u64, offset: u64, size: u32) -> Option<
    Seq<u8>,
> {
    match content_of(fs, ino) {
        Some(content) => Some(window(content, offset as int, size as int)),
        None => None,
    }
}

/// The listing made from a table of the registry.
pub open spec fn item_entries(items: Seq<ProjectItem>, project: u16) -> Seq<DirEntryView> {
    Seq::new(items.len(), |i: int| items[i].entry(project, i as u32))
}

/// The line of the object at `index` of a collection: the object as an
/// indexed item, under its identifier with `.json` appended.
pub open spec fn object_entry(
    object: ObjectView,
    project: u16,
    category: u8,
    index: int,
) -> DirEntryView {
    DirEntryView {
        ino: (Inode {
            project,
            category,
            item: index as u32,
            reserved: ReservedFile::IndexedItem.spec_code(),
        }).pack(),
        offset: (index + 1) as u64,
        kind: FileKind::RegularFile,
        name: filename_of(object.identifier),
    }
}

/// The listing of a collection's directory, one line for each object in
/// the order of the collection.
pub open spec fn object_entries(items: Seq<ObjectView>, project: u16, category: u8) -> Seq<
    DirEntryView,
> {
    Seq::new(items.len(), |i: int| object_entry(items[i], project, category, i))
}

/// The whole listing of the directory that `inode` addresses; `None` where
/// its category is not that of a directory that can be listed, its project
/// does not exist, or the collection is not held.
pub open spec fn directory_entries(fs: Seq<ProjectView>, inode: Inode) -> Option<
    Seq<DirEntryView>,
> {
    match project_at(fs, inode.project) {
        Some(project) => match Category::spec_from_code(inode.category) {
            Some(Category::Internal) => Some(
                item_entries(ItemTable::Project.items(), inode.project),
            ),
            Some(Category::Ldm) => Some(Seq::empty()),
            Some(Category::Metadata) => Some(
                item_entries(ItemTable::Metadata.items(), inode.project),
            ),
            _ => match collection_of(inode.category) {
                Some(kind) => match project.collection(kind) {
                    Some(items) => Some(object_entries(items, inode.project, inode.category)),
                    None => None,
                },
                None => None,
            },
        },
        None => None,
    }
}

/// Reply to a listing of `ino` from `offset` on, `limit` entries at most:
/// that window of the directory's whole listing, or "not found" (`None`).
pub open spec fn readdir_reply(fs: Seq<ProjectView>, ino: u64, offset: int, limit: int) -> Option<
    Seq<DirEntryView>,
> {
    match directory_entries(fs, Inode::unpack(ino)) {
        Some(entries) => Some(window(entries, offset, limit)),
        None => None,
    }
}

/// What a handler reads of a project besides its existence: one document
/// or one collection.
#[derive(Clone, Copy, Debug, PartialEq, Eq, Structural)]
pub enum Resource {
    Document(Document),
    Collection(CollectionKind),
}

/// The resource that the reply to an attribute query for `ino` is made
/// from, if it is made from any.
pub open spec fn getattr_resource(ino: u64) -> Option<Resource> {
    let inode = Inode::unpack(ino);
    if inode.project == 0 {
        None
    } else if inode.category == Category::Internal.spec_code() {
        match document_of(inode.reserved) {
            Some(document) => Some(Resource::Document(document)),
            None => None,
        }
    } else {
        match collection_of(inode.category) {
            Some(kind) => if inode.reserved == ReservedFile::IndexedItem.spec_code() {
                Some(Resource::Collection(kind))
            } else {
                None
            },
            None => None,
        }
    }
}

/// The resource that the reply to a resolution of `name` under `parent` is
/// made from, if it is made from any.
pub open spec fn lookup_resource(parent: u64, name: Seq<char>) -> Option<Resource> {
    let inode = Inode::unpack(parent);
    match named_item(name) {
        Some(item) => match item.spec_document() {
            Some(document) => Some(Resource::Document(document)),
            None => None,
        },
        None => match collection_of(inode.category) {
            Some(kind) => if inode.reserved == ReservedFile::KeepMe.spec_code() {
                Some(Resource::Collection(kind))
            } else {
                None
            },
            None => None,
        },
    }
}

/// The resource that the reply to a read of `ino` is made from, if it is
/// made from any.
pub open spec fn read_resource(ino: u64) -> Option<Resource> {
    let inode = Inode::unpack(ino);
    match document_of(inode.reserved) {
        Some(document) => Some(Resource::Document(document)),
        None => match collection_of(inode.category) {
            Some(kind) => Some(Resource::Collection(kind)),
            None => None,
        },
    }
}

/// The resource that the reply to a listing of `ino` is made from, if it
/// is made from any.
pub open spec fn readdir_resource(ino: u64) -> Option<Resource> {
    match collection_of(Inode::unpack(ino).category) {
        Some(kind) => Some(Resource::Collection(kind)),
        None => None,
    }
}

/// The collection that a category tag names.
pub fn collection_for_category(category: u8) -> (kind: Option<CollectionKind>)
    ensures
        kind == collection_of(category),
{
    match Category::from_code(category) {
        Some(Category::MetadataAttributes) => Some(CollectionKind::Attributes),
        Some(Category::MetadataFacts) => Some(CollectionKind::Facts),
        Some(Category::MetadataMetrics) => Some(CollectionKind::Metrics),
        Some(Category::MetadataReports) => Some(CollectionKind::Reports),
        _ => None,
    }
}

/// The document that a reserved tag names.
pub fn document_for_reserved(reserved: u8) -> (document: Option<Document>)
    ensures
        document == document_of(reserved),
{
    match ReservedFile::from_code(reserved) {
        ReservedFile::FeatureFlagsJson => Some(Document::FeatureFlags),
        ReservedFile::ProjectJson => Some(Document::ProjectJson),
        ReservedFile::PermissionsJson => Some(Document::Permissions),
        ReservedFile::RolesJson => Some(Document::Roles),
        _ => None,
    }
}

/// The registry entry that serves a document.
pub fn item_for_document(document: Document) -> (item: ProjectItem)
    ensures
        item == document_item(document),
{
    match document {
        Document::FeatureFlags => ProjectItem::FeatureFlags,
        Document::ProjectJson => ProjectItem::ProjectJson,
        Document::Permissions => ProjectItem::UserPermissions,
        Document::Roles => ProjectItem::UserRoles,
    }
}

/// The registry entry of a collection's directory.
pub fn item_for_collection(kind: CollectionKind) -> (item: ProjectItem)
    ensures
        item == collection_item(kind),
{
    match kind {
        CollectionKind::Attributes => ProjectItem::Attributes,
        CollectionKind::Facts => ProjectItem::Facts,
        CollectionKind::Metrics => ProjectItem::Metrics,
        CollectionKind::Reports => ProjectItem::Reports,
    }
}

/// The registry entry that a name resolves to by itself.
pub fn item_by_name(name: &str) -> (item: Option<ProjectItem>)
    ensures
        item == named_item(name@),
{
    if str_eq(name, ProjectItem::FeatureFlags.path()) {
        Some(ProjectItem::FeatureFlags)
    } else if str_eq(name, ProjectItem::ProjectJson.path()) {
        Some(ProjectItem::ProjectJson)
    } else if str_eq(name, ProjectItem::Ldm.path()) {
        Some(ProjectItem::Ldm)
    } else if str_eq(name, ProjectItem::Metadata.path()) {
        Some(ProjectItem::Metadata)
    } else if str_eq(name, ProjectItem::Attributes.path()) {
        Some(ProjectItem::Attributes)
    } else if str_eq(name, ProjectItem::Facts.path()) {
        Some(ProjectItem::Facts)
    } else if str_eq(name, ProjectItem::Metrics.path()) {
        Some(ProjectItem::Metrics)
    } else if str_eq(name, ProjectItem::Reports.path()) {
        Some(ProjectItem::Reports)
    } else if str_eq(name, ProjectItem::ReportDefinitions.path()) {
        Some(ProjectItem::ReportDefinitions)
    } else if str_eq(name, ProjectItem::UserPermissions.path()) {
        Some(ProjectItem::UserPermissions)
    } else if str_eq(name, ProjectItem::UserRoles.path()) {
        Some(ProjectItem::UserRoles)
    } else {
        None
    }
}

/// The project that an inode belongs to: none for an inode outside every
/// project and for an ordinal past the last project.  The inode is given
/// as such or as anything that converts into one, its number above all.
pub fn project_from_inode<Type: Into<Inode>>(fs: &GoodDataFS, ino: Type) -> (project: Option<
    &Project,
>)
    ensures
        <Type as IntoSpec<Inode>>::obeys_into_spec() ==> {
            &&& project_at(fs@, ino.into_spec().project) is Some ==> project is Some && project->0@
                == project_at(fs@, ino.into_spec().project)->0
            &&& project_at(fs@, ino.into_spec().project) is None ==> project is None
        },
{
    let inode: Inode = ino.into();
    fs.project(inode.project)
}

/// The object at index `item` of a collection of a project.
pub fn find_object(fs: &GoodDataFS, project: u16, kind: CollectionKind, item: u32) -> (object:
    Option<&RemoteObject>)
    ensures
        object_at(fs@, project, kind, item) is Some ==> object is Some && object->0@ == object_at(
            fs@,
            project,
            kind,
            item,
        )->0,
        object_at(fs@, project, kind, item) is None ==> object is None,
{
    match fs.project(project) {
        Some(p) => match p.collection(kind) {
            Some(collection) => collection.get(item),
            None => None,
        },
        None => None,
    }
}

/// Resolves an identifier in the collection directory `parent`.
pub fn lookup_object(fs: &GoodDataFS, parent: Inode, kind: CollectionKind, identifier: &str) -> (reply:
    EntryReply)
    ensures
        reply == object_entry_reply(fs@, parent, kind, identifier@),
{
    match fs.project(parent.project) {
        Some(project) => match project.collection(kind) {
            Some(collection) => {
                let (index, found) = collection.find_by_identifier(identifier);
                match found {
                    Some(object) => {
                        let child = Inode {
                            project: parent.project,
                            category: parent.category,
                            item: index,
                            reserved: ReservedFile::IndexedItem.code(),
                        };
                        EntryReply::Entry {
                            ttl: DEFAULT_TTL,
                            attr: create_inode_file_attributes(
                                Inode::serialize(&child),
                                object.content().len() as u64,
                                DEFAULT_CREATE_TIME,
                            ),
                            generation: 0,
                        }
                    },
                    None => EntryReply::NotFound,
                }
            },
            None => EntryReply::NotFound,
        },
        None => EntryReply::NotFound,
    }
}

/// Resolves `name` in the directory `parent`.
pub fn lookup(fs: &GoodDataFS, parent: u64, name: &str) -> (reply: EntryReply)
    ensures
        reply == lookup_reply(fs@, parent, name@),
{
    match item_by_name(name) {
        Some(item) => item.lookup(fs, parent),
        None => {
            let inode = Inode::deserialize(parent);
            match collection_for_category(inode.category) {
                Some(kind) => if inode.reserved == ReservedFile::KeepMe.code() {
                    lookup_object(fs, inode, kind, identifier_from_filename(name))
                } else {
                    EntryReply::NotFound
                },
                None => EntryReply::NotFound,
            }
        },
    }
}

/// Answers an attribute query for an inode of a collection category.
pub fn getattr_collection(fs: &GoodDataFS, ino: u64, kind: CollectionKind) -> (reply: AttrReply)
    ensures
        reply == collection_attr_reply(fs@, ino, kind),
{
    let inode = Inode::deserialize(ino);
    match ReservedFile::from_code(inode.reserved) {
        ReservedFile::KeepMe => item_for_collection(kind).getattr(fs, ino),
        ReservedFile::IndexedItem => match find_object(fs, inode.project, kind, inode.item) {
            Some(object) => AttrReply::Attr {
                ttl: DEFAULT_TTL,
                attr: create_inode_file_attributes(
                    ino,
                    object.content().len() as u64,
                    DEFAULT_CREATE_TIME,
                ),
            },
            None => AttrReply::NotFound,
        },
        _ => AttrReply::NotFound,
    }
}

/// Answers an attribute query for `ino`.
pub fn getattr(fs: &GoodDataFS, ino: u64) -> (reply: AttrReply)
    ensures
        reply == getattr_reply(fs@, ino),
{
    let inode = Inode::deserialize(ino);
    if inode.project == 0 {
        return AttrReply::NotFound;
    }
    match Category::from_code(inode.category) {
        Some(Category::Internal) => match document_for_reserved(inode.reserved) {
            Some(document) => item_for_document(document).getattr(fs, ino),
            None => AttrReply::NotFound,
        },
        Some(Category::Ldm) => ProjectItem::Ldm.getattr(fs, ino),
        Some(Category::Metadata) => ProjectItem::Metadata.getattr(fs, ino),
        Some(Category::MetadataAttributes) => getattr_collection(
            fs,
            ino,
            CollectionKind::Attributes,
        ),
        Some(Category::MetadataFacts) => getattr_collection(fs, ino, CollectionKind::Facts),
        Some(Category::MetadataMetrics) => getattr_collection(fs, ino, CollectionKind::Metrics),
        Some(Category::MetadataReports) => getattr_collection(fs, ino, CollectionKind::Reports),
        Some(Category::MetadataReportDefinition) => ProjectItem::ReportDefinitions.getattr(fs, ino),
        Some(Category::MetadataLast) => AttrReply::NotFound,
        None => AttrReply::NotFound,
    }
}

/// Reads from the object that an inode in the metadata range names.
pub fn read_metadata(fs: &GoodDataFS, inode: Inode, offset: u64, size: u32) -> (reply: DataReply)
    ensures
        reply@ == metadata_read_reply(fs@, inode, offset, size),
{
    match collection_for_category(inode.category) {
        Some(kind) => match find_object(fs, inode.project, kind, inode.item) {
            Some(object) => DataReply::Data(read_window(object.content(), offset, size)),
            None => DataReply::NotFound,
        },
        None => DataReply::NotFound,
    }
}

/// Reads `size` bytes at `offset` from `ino`.
pub fn read(fs: &GoodDataFS, ino: u64, offset: u64, size: u32) -> (reply: DataReply)
    ensures
        reply@ == read_reply(fs@, ino, offset, size),
{
    let inode = Inode::deserialize(ino);
    match document_for_reserved(inode.reserved) {
        Some(document) => item_for_document(document).read(fs, inode, offset, size),
        None => if inode.category >= Category::Metadata.code() && inode.category
            <= Category::MetadataLast.code() {
            read_metadata(fs, inode, offset, size)
        } else {
            DataReply::NotFound
        },
    }
}

/// Lists a table of the registry from `offset` on, `limit` entries at most.
pub fn list_items(table: ItemTable, project: u16, offset: u64, limit: usize) -> (entries: Vec<
    DirEntry,
>)
    ensures
        entry_views(entries@) == window(
            item_entries(table.items(), project),
            offset as int,
            limit as int,
        ),
{
    let ghost all = item_entries(table.items(), project);
    let count: usize = table.len();
    let mut entries: Vec<DirEntry> = Vec::new();
    if offset >= count as u64 {
        assert(entry_views(entries@) =~= window(all, offset as int, limit as int));
        return entries;
    }
    let start = offset as usize;
    let rest = count - start;
    let end = if limit >= rest {
        count
    } else {
        start + limit
    };
    let mut i: usize = start;
    while i < end
        invariant
            start <= i <= end <= count,
            count == table.items().len(),
            count <= u32::MAX,
            all == item_entries(table.items(), project),
            entry_views(entries@) =~= all.subrange(start as int, i as int),
        decreases end - i,
    {
        match table.get(i) {
            Some(item) => {
                let ghost before = entry_views(entries@);
                let entry = item.readdir(project, i as u32);
                entries.push(entry);
                assert(entry_views(entries@) =~= before.push(entry@));
                assert(entry@ == all[i as int]);
            },
            None => {},
        }
        i += 1;
    }
    assert(entry_views(entries@) =~= window(all, offset as int, limit as int));
    entries
}

/// Lists the objects of a collection from `offset` on, `limit` entries at most.
pub fn list_objects(
    collection: &Collection,
    project: u16,
    category: u8,
    offset: u64,
    limit: usize,
) -> (entries: Vec<DirEntry>)
    ensures
        entry_views(entries@) == window(
            object_entries(collection@, project, category),
            offset as int,
            limit as int,
        ),
{
    let ghost all = object_entries(collection@, project, category);
    let count: usize = collection.len() as usize;
    let mut entries: Vec<DirEntry> = Vec::new();
    if offset >= count as u64 {
        assert(entry_views(entries@) =~= window(all, offset as int, limit as int));
        return entries;
    }
    let start = offset as usize;
    let rest = count - start;
    let end = if limit >= rest {
        count
    } else {
        start + limit
    };
    let mut i: usize = start;
    while i < end
        invariant
            start <= i <= end <= count,
            count == collection@.len(),
            count <= u32::MAX,
            all == object_entries(collection@, project, category),
            entry_views(entries@) =~= all.subrange(start as int, i as int),
        decreases end - i,
    {
        match collection.get(i as u32) {
            Some(object) => {
                let ghost before = entry_views(entries@);
                let child = Inode {
                    project,
                    category,
                    item: i as u32,
                    reserved: ReservedFile::IndexedItem.code(),
                };
                let entry = DirEntry {
                    ino: Inode::serialize(&child),
                    offset: i as u64 + 1,
                    kind: FileKind::RegularFile,
                    name: filename_from_identifier(object.identifier.as_str()),
                };
                entries.push(entry);
                assert(entry_views(entries@) =~= before.push(entry@));
                assert(entry@ == all[i as int]);
            },
            None => {},
        }
        i += 1;
    }
    assert(entry_views(entries@) =~= window(all, offset as int, limit as int));
    entries
}

/// Lists the directory `ino` from `in_offset` on, `limit` entries at most.
/// Every entry carries the offset at which a later call resumes after it.
pub fn readdir(fs: &GoodDataFS, ino: u64, in_offset: u64, limit: usize) -> (reply: DirReply)
    ensures
        reply@ == readdir_reply(fs@, ino, in_offset as int, limit as int),
{
    let inode = Inode::deserialize(ino);
    match fs.project(inode.project) {
        Some(project) => match Category::from_code(inode.category) {
            Some(Category::Internal) => DirReply::Entries(
                list_items(ItemTable::Project, inode.project, in_offset, limit),
            ),
            Some(Category::Ldm) => {
                let entries: Vec<DirEntry> = Vec::new();
                assert(entry_views(entries@) =~= window(
                    Seq::<DirEntryView>::empty(),
                    in_offset as int,
                    limit as int,
                ));
                DirReply::Entries(entries)
            },
            Some(Category::Metadata) => DirReply::Entries(
                list_items(ItemTable::Metadata, inode.project, in_offset, limit),
            ),
            _ => match collection_for_category(inode.category) {
                Some(kind) => match project.collection(kind) {
                    Some(collection) => DirReply::Entries(
                        list_objects(collection, inode.project, inode.category, in_offset, limit),
                    ),
                    None => DirReply::NotFound,
                },
                None => DirReply::NotFound,
            },
        },
        None => DirReply::NotFound,
    }
}

/// Names what has to be held of the project of `ino` for an attribute
/// query to be answered from it.
pub fn resource_for_getattr(ino: u64) -> (resource: Option<Resource>)
    ensures
        resource == getattr_resource(ino),
{
    let inode = Inode::deserialize(ino);
    if inode.project == 0 {
        None
    } else if inode.category == Category::Internal.code() {
        match document_for_reserved(inode.reserved) {
            Some(document) => Some(Resource::Document(document)),
            None => None,
        }
    } else {
        match collection_for_category(inode.category) {
            Some(kind) => if inode.reserved == ReservedFile::IndexedItem.code() {
                Some(Resource::Collection(kind))
            } else {
                None
            },
            None => None,
        }
    }
}

/// Names what has to be held of the project of `parent` for a resolution
/// of `name` to be answered from it.
pub fn resource_for_lookup(parent: u64, name: &str) -> (resource: Option<Resource>)
    ensures
        resource == lookup_resource(parent, name@),
{
    let inode = Inode::deserialize(parent);
    match item_by_name(name) {
        Some(item) => match item.document() {
            Some(document) => Some(Resource::Document(document)),
            None => None,
        },
        None => match collection_for_category(inode.category) {
            Some(kind) => if inode.reserved == ReservedFile::KeepMe.code() {
                Some(Resource::Collection(kind))
            } else {
                None
            },
            None => None,
        },
    }
}

/// Names what has to be held of the project of `ino` for a read to be
/// answered from it.
pub fn resource_for_read(ino: u64) -> (resource: Option<Resource>)
    ensures
        resource == read_resource(ino),
{
    let inode = Inode::deserialize(ino);
    match document_for_reserved(inode.reserved) {
        Some(document) => Some(Resource::Document(document)),
        None => match collection_for_category(inode.category) {
            Some(kind) => Some(Resource::Collection(kind)),
            None => None,
        },
    }
}

/// Names what has to be held of the project of `ino` for a listing to be
/// answered from it.
pub fn resource_for_readdir(ino: u64) -> (resource: Option<Resource>)
    ensures
        resource == readdir_resource(ino),
{
    match collection_for_category(Inode::deserialize(ino).category) {
        Some(kind) => Some(Resource::Collection(kind)),
        None => None,
    }
}

} // verus!
