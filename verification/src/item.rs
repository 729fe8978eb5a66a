//! The registry of fixed entries: the four documents of a project, its two
//! top-level directories and the five directories under the metadata root.
//!
//! Every entry answers the same four operations (attributes, name
//! resolution, content read, directory listing).  The order of the two
//! tables is the order of the listings that are made from them, and with
//! it the meaning of their offsets.

use vstd::prelude::*;
use vstd::string::*;
use crate::constants::{
    Category, ReservedFile, DEFAULT_CREATE_TIME, DEFAULT_TTL, FEATURE_FLAGS_JSON_FILENAME,
    METADATA_ATTRIBUTES_DIR, METADATA_FACTS_DIR, METADATA_METRICS_DIR,
    METADATA_REPORTS_DIR, METADATA_REPORT_DEFINITIONS_DIR, PROJECT_JSON_FILENAME,
    PROJECT_LDM_DIR, PROJECT_METADATA_DIR, USER_PERMISSIONS_JSON_FILENAME,
    USER_ROLES_JSON_FILENAME,
};
use crate::fs::{project_at, GoodDataFS};
use crate::helpers::{
    create_inode_directory_attributes, create_inode_file_attributes, directory_attributes,
    file_attributes, FileKind,
};
use crate::inode::Inode;
use crate::object::{Document, ProjectView};
use crate::reply::{AttrReply, DataReply, DirEntry, DirEntryView, EntryReply};
use crate::text::{read_window, window};

verus! {

/// Number of entries in a project's own directory.
pub const PROJECT_ITEM_COUNT: usize = 6;

/// Number of entries in the metadata root directory.
pub const METADATA_ITEM_COUNT: usize = 5;

/// A fixed entry of the tree.
#[derive(Clone, Copy, Debug, PartialEq, Eq, Structural)]
pub enum ProjectItem {
    FeatureFlags,
    ProjectJson,
    UserPermissions,
    UserRoles,
    Ldm,
    Metadata,
    Attributes,
    Facts,
    Metrics,
    Reports,
    ReportDefinitions,
}

/// The entries of a project's own directory, in listing order.
pub open spec fn project_items() -> Seq<ProjectItem> {
    seq![
        ProjectItem::FeatureFlags,
        ProjectItem::ProjectJson,
        ProjectItem::UserPermissions,
        ProjectItem::UserRoles,
        ProjectItem::Ldm,
        ProjectItem::Metadata,
    ]
}

/// The entries of the metadata root directory, in listing order.
pub open spec fn metadata_items() -> Seq<ProjectItem> {
    seq![
        ProjectItem::Attributes,
        ProjectItem::Facts,
        ProjectItem::Metrics,
        ProjectItem::Reports,
        ProjectItem::ReportDefinitions,
    ]
}

/// The entry at `index` of a project's own directory.
pub fn project_item(index: usize) -> (item: Option<ProjectItem>)
    ensures
        index < project_items().len() ==> item == Some(project_items()[index as int]),
        index >= project_items().len() ==> item is None,
{
    match index {
        0 => Some(ProjectItem::FeatureFlags),
        1 => Some(ProjectItem::ProjectJson),
        2 => Some(ProjectItem::UserPermissions),
        3 => Some(ProjectItem::UserRoles),
        4 => Some(ProjectItem::Ldm),
        5 => Some(ProjectItem::Metadata),
        _ => None,
    }
}

/// The entry at `index` of the metadata root directory.
pub fn metadata_item(index: usize) -> (item: Option<ProjectItem>)
    ensures
        index < metadata_items().len() ==> item == Some(metadata_items()[index as int]),
        index >= metadata_items().len() ==> item is None,
{
    match index {
        0 => Some(ProjectItem::Attributes),
        1 => Some(ProjectItem::Facts),
        2 => Some(ProjectItem::Metrics),
        3 => Some(ProjectItem::Reports),
        4 => Some(ProjectItem::ReportDefinitions),
        _ => None,
    }
}

/// The two tables of the registry: the entries of a project's own
/// directory and those of the metadata root.
#[derive(Clone, Copy, Debug, PartialEq, Eq, Structural)]
pub enum ItemTable {
    Project,
    Metadata,
}

impl ItemTable {
    /// The entries of the table, in listing order.
    pub open spec fn items(self) -> Seq<ProjectItem> {
        match self {
            ItemTable::Project => project_items(),
            ItemTable::Metadata => metadata_items(),
        }
    }

    /// Number of entries of the table.
    pub fn len(self) -> (n: usize)
        ensures
            n == self.items().len(),
    {
        match self {
            ItemTable::Project => PROJECT_ITEM_COUNT,
            ItemTable::Metadata => METADATA_ITEM_COUNT,
        }
    }

    /// The entry at `index` of the table.
    pub fn get(self, index: usize) -> (item: Option<ProjectItem>)
        ensures
            index < self.items().len() ==> item == Some(self.items()[index as int]),
            index >= self.items().len() ==> item is None,
    {
        match self {
            ItemTable::Project => project_item(index),
            ItemTable::Metadata => metadata_item(index),
        }
    }
}

impl ProjectItem {
    /// The category under which the entry's inode is filed.
    pub open spec fn spec_category(self) -> Category {
        match self {
            ProjectItem::FeatureFlags => Category::Internal,
            ProjectItem::ProjectJson => Category::Internal,
            ProjectItem::UserPermissions => Category::Internal,
            ProjectItem::UserRoles => Category::Internal,
            ProjectItem::Ldm => Category::Ldm,
            ProjectItem::Metadata => Category::Metadata,
            ProjectItem::Attributes => Category::MetadataAttributes,
            ProjectItem::Facts => Category::MetadataFacts,
            ProjectItem::Metrics => Category::MetadataMetrics,
            ProjectItem::Reports => Category::MetadataReports,
            ProjectItem::ReportDefinitions => Category::MetadataReportDefinition,
        }
    }

    /// The reserved tag of the entry's inode: the document's own tag, or
    /// the directory tag.
    pub open spec fn spec_reserved(self) -> ReservedFile {
        match self {
            ProjectItem::FeatureFlags => ReservedFile::FeatureFlagsJson,
            ProjectItem::ProjectJson => ReservedFile::ProjectJson,
            ProjectItem::UserPermissions => ReservedFile::PermissionsJson,
            ProjectItem::UserRoles => ReservedFile::RolesJson,
            _ => ReservedFile::KeepMe,
        }
    }

    /// The document that the entry serves; none for a directory.
    pub open spec fn spec_document(self) -> Option<Document> {
        match self {
            ProjectItem::FeatureFlags => Some(Document::FeatureFlags),
            ProjectItem::ProjectJson => Some(Document::ProjectJson),
            ProjectItem::UserPermissions => Some(Document::Permissions),
            ProjectItem::UserRoles => Some(Document::Roles),
            _ => None,
        }
    }

    /// File for a document, directory otherwise.
    pub open spec fn spec_item_type(self) -> FileKind {
        match self.spec_document() {
            Some(_) => FileKind::RegularFile,
            None => FileKind::Directory,
        }
    }

    /// The name under which the entry is listed and resolved.
    pub open spec fn spec_path(self) -> Seq<char> {
        match self {
            ProjectItem::FeatureFlags => FEATURE_FLAGS_JSON_FILENAME@,
            ProjectItem::ProjectJson => PROJECT_JSON_FILENAME@,
            ProjectItem::UserPermissions => USER_PERMISSIONS_JSON_FILENAME@,
            ProjectItem::UserRoles => USER_ROLES_JSON_FILENAME@,
            ProjectItem::Ldm => PROJECT_LDM_DIR@,
            ProjectItem::Metadata => PROJECT_METADATA_DIR@,
            ProjectItem::Attributes => METADATA_ATTRIBUTES_DIR@,
            ProjectItem::Facts => METADATA_FACTS_DIR@,
            ProjectItem::Metrics => METADATA_METRICS_DIR@,
            ProjectItem::Reports => METADATA_REPORTS_DIR@,
            ProjectItem::ReportDefinitions => METADATA_REPORT_DEFINITIONS_DIR@,
        }
    }

    /// The entry's inode in the project with the given ordinal.
    pub open spec fn spec_inode(self, project: u16) -> Inode {
        Inode {
            project,
            category: self.spec_category().spec_code(),
            item: 0,
            reserved: self.spec_reserved().spec_code(),
        }
    }

    /// Reply of the entry to an attribute query for `ino`: "not found"
    /// where `ino` names no existing project or the document is not held,
    /// else the metadata of a file as long as the document, or of a directory.
    pub open spec fn getattr_reply(self, fs: Seq<ProjectView>, ino: u64) -> AttrReply {
        match project_at(fs, Inode::unpack(ino).project) {
            None => AttrReply::NotFound,
            Some(project) => match self.spec_document() {
                Some(document) => match project.document(document) {
                    Some(bytes) => AttrReply::Attr {
                        ttl: DEFAULT_TTL,
                        attr: file_attributes(ino, bytes.len() as u64, DEFAULT_CREATE_TIME),
                    },
                    None => AttrReply::NotFound,
                },
                None => AttrReply::Attr {
                    ttl: DEFAULT_TTL,
                    attr: directory_attributes(ino, DEFAULT_CREATE_TIME),
                },
            },
        }
    }

    /// Reply of the entry to a resolution of its name under `parent`: the
    /// entry's inode in the parent's project with the metadata that an
    /// attribute query for it gives.
    pub open spec fn lookup_reply(self, fs: Seq<ProjectView>, parent: u64) -> EntryReply {
        match self.getattr_reply(fs, self.spec_inode(Inode::unpack(parent).project).pack()) {
            AttrReply::Attr { ttl, attr } => EntryReply::Entry { ttl, attr, generation: 0 },
            AttrReply::NotFound => EntryReply::NotFound,
        }
    }

    /// Reply of the entry to a read: the window of the document, or "not
    /// found" (`None`) for a directory, a missing project or a document
    /// that is not held.
    pub open spec fn read_reply(
        self,
        fs: Seq<ProjectView>,
        inode: Inode,
        offset: u64,
        size: u32,
    ) -> Option<Seq<u8>> {
        match (project_at(fs, inode.project), self.spec_document()) {
            (Some(project), Some(document)) => match project.document(document) {
                Some(bytes) => Some(window(bytes, offset as int, size as int)),
                None => None,
            },
            _ => None,
        }
    }

    /// The line that the entry contributes at `position` of a listing in
    /// the project with the given ordinal.
    pub open spec fn entry(self, project: u16, position: u32) -> DirEntryView {
        DirEntryView {
            ino: self.spec_inode(project).pack(),
            offset: (position + 1) as u64,
            kind: self.spec_item_type(),
            name: self.spec_path(),
        }
    }

    #[verifier::when_used_as_spec(spec_category)]
    pub fn category(self) -> (category: Category)
        ensures
            category == self.spec_category(),
    {
        match self {
            ProjectItem::FeatureFlags => Category::Internal,
            ProjectItem::ProjectJson => Category::Internal,
            ProjectItem::UserPermissions => Category::Internal,
            ProjectItem::UserRoles => Category::Internal,
            ProjectItem::Ldm => Category::Ldm,
            ProjectItem::Metadata => Category::Metadata,
            ProjectItem::Attributes => Category::MetadataAttributes,
            ProjectItem::Facts => Category::MetadataFacts,
            ProjectItem::Metrics => Category::MetadataMetrics,
            ProjectItem::Reports => Category::MetadataReports,
            ProjectItem::ReportDefinitions => Category::MetadataReportDefinition,
        }
    }

    #[verifier::when_used_as_spec(spec_reserved)]
    pub fn reserved(self) -> (reserved: ReservedFile)
        ensures
            reserved == self.spec_reserved(),
    {
        match self {
            ProjectItem::FeatureFlags => ReservedFile::FeatureFlagsJson,
            ProjectItem::ProjectJson => ReservedFile::ProjectJson,
            ProjectItem::UserPermissions => ReservedFile::PermissionsJson,
            ProjectItem::UserRoles => ReservedFile::RolesJson,
            _ => ReservedFile::KeepMe,
        }
    }

    #[verifier::when_used_as_spec(spec_document)]
    pub fn document(self) -> (document: Option<Document>)
        ensures
            document == self.spec_document(),
    {
        match self {
            ProjectItem::FeatureFlags => Some(Document::FeatureFlags),
            ProjectItem::ProjectJson => Some(Document::ProjectJson),
            ProjectItem::UserPermissions => Some(Document::Permissions),
            ProjectItem::UserRoles => Some(Document::Roles),
            _ => None,
        }
    }

    #[verifier::when_used_as_spec(spec_item_type)]
    pub fn item_type(self) -> (kind: FileKind)
        ensures
            kind == self.spec_item_type(),
    {
        match self.document() {
            Some(_) => FileKind::RegularFile,
            None => FileKind::Directory,
        }
    }

    pub fn path(self) -> (path: &'static str)
        ensures
            path@ == self.spec_path(),
    {
        match self {
            ProjectItem::FeatureFlags => FEATURE_FLAGS_JSON_FILENAME,
            ProjectItem::ProjectJson => PROJECT_JSON_FILENAME,
            ProjectItem::UserPermissions => USER_PERMISSIONS_JSON_FILENAME,
            ProjectItem::UserRoles => USER_ROLES_JSON_FILENAME,
            ProjectItem::Ldm => PROJECT_LDM_DIR,
            ProjectItem::Metadata => PROJECT_METADATA_DIR,
            ProjectItem::Attributes => METADATA_ATTRIBUTES_DIR,
            ProjectItem::Facts => METADATA_FACTS_DIR,
            ProjectItem::Metrics => METADATA_METRICS_DIR,
            ProjectItem::Reports => METADATA_REPORTS_DIR,
            ProjectItem::ReportDefinitions => METADATA_REPORT_DEFINITIONS_DIR,
        }
    }

    #[verifier::when_used_as_spec(spec_inode)]
    pub fn inode(self, project: u16) -> (inode: Inode)
        ensures
            inode == self.spec_inode(project),
    {
        Inode {
            project,
            category: self.category().code(),
            item: 0,
            reserved: self.reserved().code(),
        }
    }

    /// Answers an attribute query for the entry.
    pub fn getattr(self, fs: &GoodDataFS, ino: u64) -> (reply: AttrReply)
        ensures
            reply == self.getattr_reply(fs@, ino),
    {
        let inode = Inode::deserialize(ino);
        match fs.project(inode.project) {
            None => AttrReply::NotFound,
            Some(project) => match self.document() {
                Some(document) => match project.document(document) {
                    Some(bytes) => AttrReply::Attr {
                        ttl: DEFAULT_TTL,
                        attr: create_inode_file_attributes(
                            ino,
                            bytes.len() as u64,
                            DEFAULT_CREATE_TIME,
                        ),
                    },
                    None => AttrReply::NotFound,
                },
                None => AttrReply::Attr {
                    ttl: DEFAULT_TTL,
                    attr: create_inode_directory_attributes(ino, DEFAULT_CREATE_TIME),
                },
            },
        }
    }

    /// Resolves the entry's name under `parent`.
    pub fn lookup(self, fs: &GoodDataFS, parent: u64) -> (reply: EntryReply)
        ensures
            reply == self.lookup_reply(fs@, parent),
    {
        let project = Inode::deserialize(parent).project;
        let child = Inode::serialize(&self.inode(project));
        match self.getattr(fs, child) {
            AttrReply::Attr { ttl, attr } => EntryReply::Entry { ttl, attr, generation: 0 },
            AttrReply::NotFound => EntryReply::NotFound,
        }
    }

    /// Reads from the entry's document.
    pub fn read(self, fs: &GoodDataFS, inode: Inode, offset: u64, size: u32) -> (reply: DataReply)
        ensures
            reply@ == self.read_reply(fs@, inode, offset, size),
    {
        match (fs.project(inode.project), self.document()) {
            (Some(project), Some(document)) => match project.document(document) {
                Some(bytes) => DataReply::Data(read_window(bytes, offset, size)),
                None => DataReply::NotFound,
            },
            _ => DataReply::NotFound,
        }
    }

    /// Makes the line that the entry contributes at `position` of a listing.
    pub fn readdir(self, project: u16, position: u32) -> (entry: DirEntry)
        ensures
            entry@ == self.entry(project, position),
    {
        DirEntry {
            ino: Inode::serialize(&self.inode(project)),
            offset: position as u64 + 1,
            kind: self.item_type(),
            name: String::from_str(self.path()),
        }
    }
}

} // verus!
