//! The metadata reported for files and directories.

use vstd::prelude::*;

verus! {

/// Permission bits of every file: readable by all, writable by none.
pub const FILE_PERMISSIONS: u16 = 0o444;

/// Permission bits of every directory: readable and searchable by all.
pub const DIRECTORY_PERMISSIONS: u16 = 0o555;

/// The two kinds of entry in the tree.
#[derive(Clone, Copy, Debug, PartialEq, Eq, Structural)]
pub enum FileKind {
    RegularFile,
    Directory,
}

/// Metadata of one entry.
#[derive(Clone, Copy, Debug, PartialEq, Eq, Structural)]
pub struct FileAttributes {
    /// Inode number of the entry.
    pub ino: u64,
    /// Length of the content in bytes; 0 for a directory.
    pub size: u64,
    /// Access, modification, change and creation time, in seconds since the epoch.
    pub time: i64,
    /// File or directory.
    pub kind: FileKind,
    /// Permission bits.
    pub perm: u16,
    /// Number of hard links.
    pub nlink: u32,
}

/// Metadata of a regular file of `size` bytes.
pub open spec fn file_attributes(ino: u64, size: u64, time: i64) -> FileAttributes {
    FileAttributes {
        ino,
        size,
        time,
        kind: FileKind::RegularFile,
        perm: FILE_PERMISSIONS,
        nlink: 1,
    }
}

/// Metadata of a directory.
pub open spec fn directory_attributes(ino: u64, time: i64) -> FileAttributes {
    FileAttributes {
        ino,
        size: 0,
        time,
        kind: FileKind::Directory,
        perm: DIRECTORY_PERMISSIONS,
        nlink: 2,
    }
}

/// Builds the metadata of a regular file.
pub fn create_inode_file_attributes(ino: u64, size: u64, time: i64) -> (attr: FileAttributes)
    ensures
        attr == file_attributes(ino, size, time),
{
    FileAttributes {
        ino,
        size,
        time,
        kind: FileKind::RegularFile,
        perm: FILE_PERMISSIONS,
        nlink: 1,
    }
}

/// Builds the metadata of a directory.
pub fn create_inode_directory_attributes(ino: u64, time: i64) -> (attr: FileAttributes)
    ensures
        attr == directory_attributes(ino, time),
{
    FileAttributes {
        ino,
        size: 0,
        time,
        kind: FileKind::Directory,
        perm: DIRECTORY_PERMISSIONS,
        nlink: 2,
    }
}

} // verus!
