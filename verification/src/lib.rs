//! A read-only virtual file system core that projects the resources of a
//! remote analytics platform (projects, their documents and their metadata
//! collections) onto a directory tree.
//!
//! The crate holds the pure part of the driver: the packing of a resource
//! reference into a 64-bit inode number, the table of fixed project entries,
//! the per-project collection cache, and the four request handlers
//! (attributes, name resolution, content read, directory listing).  Every
//! handler is a total function from the cached state and the request to
//! exactly one reply; sending the reply and fetching from the remote
//! platform are left to the caller.
//!
//! * `constants`: category and reserved tags, fixed names, advertised times
//! * `inode`: the inode number and its packing
//! * `helpers`: file and directory metadata
//! * `text`: names, identifiers and windows of content
//! * `object`: remote objects, collections and the state of one project
//! * `fs`: the driver's state and its collection cache
//! * `reply`: the replies of the handlers
//! * `item`: the registry of fixed entries
//! * `project`: the request handlers
//! * `theorems`: what holds of the handlers taken together

pub mod constants;
pub mod inode;
pub mod helpers;
pub mod text;
pub mod object;
pub mod fs;
pub mod reply;
pub mod item;
pub mod project;
pub mod theorems;
