//! The replies of the four request handlers.  Each request is answered by
//! exactly one value of its reply type.

use vstd::prelude::*;
use crate::helpers::{FileAttributes, FileKind};

verus! {

/// Reply to an attribute query.
#[derive(Clone, Copy, Debug, PartialEq, Eq, Structural)]
pub enum AttrReply {
    /// The metadata of the entry, to be trusted for `ttl` seconds.
    Attr { ttl: i64, attr: FileAttributes },
    /// No such file or directory.
    NotFound,
}

/// Reply to a name resolution.
#[derive(Clone, Copy, Debug, PartialEq, Eq, Structural)]
pub enum EntryReply {
    /// The entry that the name resolves to; its inode number is `attr.ino`.
    Entry { ttl: i64, attr: FileAttributes, generation: u64 },
    /// No such file or directory.
    NotFound,
}

/// Reply to a content read.
#[derive(Clone, Debug, PartialEq, Eq)]
pub enum DataReply {
    /// The bytes read; empty at or past the end of the content.
    Data(Vec<u8>),
    /// No such file or directory.
    NotFound,
}

impl View for DataReply {
    type V = Option<Seq<u8>>;

    /// The bytes replied, or `None` for "not found".
    open spec fn view(&self) -> Option<Seq<u8>> {
        match self {
            DataReply::Data(bytes) => Some(bytes@),
            DataReply::NotFound => None,
        }
    }
}

/// One line of a directory listing.
#[derive(Clone, Debug, PartialEq, Eq)]
pub struct DirEntry {
    /// Inode number of the entry.
    pub ino: u64,
    /// Offset at which a listing resumes after this entry.
    pub offset: u64,
    /// File or directory.
    pub kind: FileKind,
    /// Name of the entry in its directory.
    pub name: String,
}

/// One line of a directory listing, mathematically.
pub struct DirEntryView {
    pub ino: u64,
    pub offset: u64,
    pub kind: FileKind,
    pub name: Seq<char>,
}

impl View for DirEntry {
    type V = DirEntryView;

    open spec fn view(&self) -> DirEntryView {
        DirEntryView { ino: self.ino, offset: self.offset, kind: self.kind, name: self.name@ }
    }
}

/// The views of a sequence of entries, in order.
pub open spec fn entry_views(entries: Seq<DirEntry>) -> Seq<DirEntryView> {
    Seq::new(entries.len(), |i: int| entries[i]@)
}

/// Reply to a directory listing.
#[derive(Clone, Debug, PartialEq, Eq)]
pub enum DirReply {
    /// The entries from the requested offset on, in directory order.
    Entries(Vec<DirEntry>),
    /// No such file or directory.
    NotFound,
}

impl View for DirReply {
    type V = Option<Seq<DirEntryView>>;

    /// The entries replied, or `None` for "not found".
    open spec fn view(&self) -> Option<Seq<DirEntryView>> {
        match self {
            DirReply::Entries(entries) => Some(entry_views(entries@)),
            DirReply::NotFound => None,
        }
    }
}

} // verus!
