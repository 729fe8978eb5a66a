//! Tags, fixed names and advertised times shared by the whole tree.

use vstd::prelude::*;

verus! {

/// File name of the feature flags document of a project.
pub const FEATURE_FLAGS_JSON_FILENAME: &'static str = "featureflags.json";

/// File name of the project descriptor document.
pub const PROJECT_JSON_FILENAME: &'static str = "project.json";

/// File name of the user permissions document of a project.
pub const USER_PERMISSIONS_JSON_FILENAME: &'static str = "permissions.json";

/// File name of the user roles document of a project.
pub const USER_ROLES_JSON_FILENAME: &'static str = "roles.json";

/// Directory name of the logical data model of a project.
pub const PROJECT_LDM_DIR: &'static str = "ldm";

/// Directory name of the metadata root of a project.
pub const PROJECT_METADATA_DIR: &'static str = "metadata";

/// Directory name of the attributes collection.
pub const METADATA_ATTRIBUTES_DIR: &'static str = "attributes";

/// Directory name of the facts collection.
pub const METADATA_FACTS_DIR: &'static str = "facts";

/// Directory name of the metrics collection.
pub const METADATA_METRICS_DIR: &'static str = "metrics";

/// Directory name of the reports collection.
pub const METADATA_REPORTS_DIR: &'static str = "reports";

/// Directory name of the report definitions.
pub const METADATA_REPORT_DEFINITIONS_DIR: &'static str = "report_definitions";

/// Suffix that turns an object identifier into a file name.
pub const JSON_SUFFIX: &'static str = ".json";

/// Seconds for which the kernel may trust a reply.
pub const DEFAULT_TTL: i64 = 1;

/// Creation time, in seconds since the epoch, reported for every entry.
pub const DEFAULT_CREATE_TIME: i64 = 1381237736;

/// The area of the tree that an inode addresses.
#[derive(Clone, Copy, Debug, PartialEq, Eq, Structural)]
pub enum Category {
    /// The project's own directory and its four documents.
    Internal,
    /// The logical data model directory.
    Ldm,
    /// The metadata root directory.
    Metadata,
    /// The attributes collection.
    MetadataAttributes,
    /// The facts collection.
    MetadataFacts,
    /// The metrics collection.
    MetadataMetrics,
    /// The reports collection.
    MetadataReports,
    /// The report definitions directory.
    MetadataReportDefinition,
    /// Upper bound of the metadata range; addresses nothing itself.
    MetadataLast,
}

impl Category {
    /// The tag stored in the category field of an inode.
    pub open spec fn spec_code(self) -> u8 {
        match self {
            Category::Internal => 0,
            Category::Ldm => 1,
            Category::Metadata => 2,
            Category::MetadataAttributes => 3,
            Category::MetadataFacts => 4,
            Category::MetadataMetrics => 5,
            Category::MetadataReports => 6,
            Category::MetadataReportDefinition => 7,
            Category::MetadataLast => 8,
        }
    }

    /// The category that a tag stands for, if any.
    pub open spec fn spec_from_code(code: u8) -> Option<Category> {
        if code == 0 {
            Some(Category::Internal)
        } else if code == 1 {
            Some(Category::Ldm)
        } else if code == 2 {
            Some(Category::Metadata)
        } else if code == 3 {
            Some(Category::MetadataAttributes)
        } else if code == 4 {
            Some(Category::MetadataFacts)
        } else if code == 5 {
            Some(Category::MetadataMetrics)
        } else if code == 6 {
            Some(Category::MetadataReports)
        } else if code == 7 {
            Some(Category::MetadataReportDefinition)
        } else if code == 8 {
            Some(Category::MetadataLast)
        } else {
            None
        }
    }

    #[verifier::when_used_as_spec(spec_code)]
    pub fn code(self) -> (code: u8)
        ensures
            code == self.spec_code(),
            Category::spec_from_code(code) == Some(self),
    {
        match self {
            Category::Internal => 0,
            Category::Ldm => 1,
            Category::Metadata => 2,
            Category::MetadataAttributes => 3,
            Category::MetadataFacts => 4,
            Category::MetadataMetrics => 5,
            Category::MetadataReports => 6,
            Category::MetadataReportDefinition => 7,
            Category::MetadataLast => 8,
        }
    }

    #[verifier::when_used_as_spec(spec_from_code)]
    pub fn from_code(code: u8) -> (category: Option<Category>)
        ensures
            category == Category::spec_from_code(code),
    {
        match code {
            0 => Some(Category::Internal),
            1 => Some(Category::Ldm),
            2 => Some(Category::Metadata),
            3 => Some(Category::MetadataAttributes),
            4 => Some(Category::MetadataFacts),
            5 => Some(Category::MetadataMetrics),
            6 => Some(Category::MetadataReports),
            7 => Some(Category::MetadataReportDefinition),
            8 => Some(Category::MetadataLast),
            _ => None,
        }
    }
}

/// What the reserved field of an inode says about the entry.
#[derive(Clone, Copy, Debug, PartialEq, Eq, Structural)]
pub enum ReservedFile {
    /// An indexed object of the collection that the category names.
    IndexedItem,
    /// The feature flags document.
    FeatureFlagsJson,
    /// The project descriptor document.
    ProjectJson,
    /// The user permissions document.
    PermissionsJson,
    /// The user roles document.
    RolesJson,
    /// The directory of the category itself, as opposed to one of its entries.
    KeepMe,
    /// Any other value.
    Unknown,
}

impl ReservedFile {
    /// The tag stored in the reserved field of an inode.  `Unknown` stands
    /// for every unassigned tag and is written as the largest one.
    pub open spec fn spec_code(self) -> u8 {
        match self {
            ReservedFile::IndexedItem => 0,
            ReservedFile::FeatureFlagsJson => 1,
            ReservedFile::ProjectJson => 2,
            ReservedFile::PermissionsJson => 3,
            ReservedFile::RolesJson => 4,
            ReservedFile::KeepMe => 5,
            ReservedFile::Unknown => 255,
        }
    }

    /// The meaning of a tag; every unassigned tag is `Unknown`.
    pub open spec fn spec_from_code(code: u8) -> ReservedFile {
        if code == 0 {
            ReservedFile::IndexedItem
        } else if code == 1 {
            ReservedFile::FeatureFlagsJson
        } else if code == 2 {
            ReservedFile::ProjectJson
        } else if code == 3 {
            ReservedFile::PermissionsJson
        } else if code == 4 {
            ReservedFile::RolesJson
        } else if code == 5 {
            ReservedFile::KeepMe
        } else {
            ReservedFile::Unknown
        }
    }

    #[verifier::when_used_as_spec(spec_code)]
    pub fn code(self) -> (code: u8)
        ensures
            code == self.spec_code(),
            ReservedFile::spec_from_code(code) == self,
    {
        match self {
            ReservedFile::IndexedItem => 0,
            ReservedFile::FeatureFlagsJson => 1,
            ReservedFile::ProjectJson => 2,
            ReservedFile::PermissionsJson => 3,
            ReservedFile::RolesJson => 4,
            ReservedFile::KeepMe => 5,
            ReservedFile::Unknown => 255,
        }
    }

    #[verifier::when_used_as_spec(spec_from_code)]
    pub fn from_code(code: u8) -> (reserved: ReservedFile)
        ensures
            reserved == ReservedFile::spec_from_code(code),
    {
        match code {
            0 => ReservedFile::IndexedItem,
            1 => ReservedFile::FeatureFlagsJson,
            2 => ReservedFile::ProjectJson,
            3 => ReservedFile::PermissionsJson,
            4 => ReservedFile::RolesJson,
            5 => ReservedFile::KeepMe,
            _ => ReservedFile::Unknown,
        }
    }
}

} // verus!
