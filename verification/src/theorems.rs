//! What holds of the request handlers taken together.

use vstd::prelude::*;
use crate::constants::{Category, ReservedFile};
use crate::fs::{held_collection, needs_fetch, project_at, with_collection, within_limits};
use crate::helpers::FileKind;
use crate::inode::{lemma_unpack_pack, Inode};
use crate::object::{lemma_position_is, CollectionKind, ObjectView, ProjectView};
use crate::project::{
    collection_of, content_of, directory_entries, document_of, getattr_reply, getattr_resource,
    lookup_reply, lookup_resource, named_item, read_reply, read_resource, readdir_reply,
    readdir_resource, Resource,
};
use crate::reply::{AttrReply, EntryReply};
use crate::text::{
    filename_of, lemma_identifier_of_filename, lemma_resumed, lemma_window,
    lemma_window_resumes, lemma_window_unbounded, resumed, total, window,
};

verus! {

/// A listing can be taken in pieces.  Where the directory can be listed,
/// asking for `first` entries from `offset` and then for `second` more from
/// the offset advanced by the number of entries that came back gives, put
/// together, what asking for `first + second` entries from `offset` gives.
pub proof fn lemma_readdir_resumes(
    fs: Seq<ProjectView>,
    ino: u64,
    offset: nat,
    first: nat,
    second: nat,
)
    requires
        readdir_reply(fs, ino, offset as int, first as int) is Some,
    ensures
        readdir_reply(
            fs,
            ino,
            (offset + readdir_reply(fs, ino, offset as int, first as int)->0.len()) as int,
            second as int,
        ) is Some,
        readdir_reply(fs, ino, offset as int, first as int)->0 + readdir_reply(
            fs,
            ino,
            (offset + readdir_reply(fs, ino, offset as int, first as int)->0.len()) as int,
            second as int,
        )->0 == readdir_reply(fs, ino, offset as int, (first + second) as int)->0,
{
    let entries = directory_entries(fs, Inode::unpack(ino))->0;
    lemma_window_resumes(entries, offset as int, first as int, second as int);
}

/// Any run of listings of one directory, each resumed at the offset where
/// the one before it ended, gives put together what a single listing for
/// the sum of their limits gives; and where that sum covers what is left
/// of the directory, all that is left, in directory order.
pub proof fn lemma_readdir_in_pieces(fs: Seq<ProjectView>, ino: u64, offset: nat, limits: Seq<nat>)
    requires
        directory_entries(fs, Inode::unpack(ino)) is Some,
    ensures
        Some(resumed(directory_entries(fs, Inode::unpack(ino))->0, offset as int, limits))
            == readdir_reply(fs, ino, offset as int, total(limits) as int),
        offset <= directory_entries(fs, Inode::unpack(ino))->0.len() && total(limits)
            >= directory_entries(fs, Inode::unpack(ino))->0.len() - offset ==> resumed(
            directory_entries(fs, Inode::unpack(ino))->0,
            offset as int,
            limits,
        ) == directory_entries(fs, Inode::unpack(ino))->0.subrange(
            offset as int,
            directory_entries(fs, Inode::unpack(ino))->0.len() as int,
        ),
{
    let entries = directory_entries(fs, Inode::unpack(ino))->0;
    lemma_resumed(entries, offset as int, limits);
    if offset <= entries.len() && total(limits) >= entries.len() - offset {
        lemma_window_unbounded(entries, offset as int, total(limits) as int);
    }
}

/// The offset that an entry of a listing carries is the offset at which a
/// listing resumes after it: one more than the entry's place in the
/// directory.
pub proof fn lemma_entry_offsets(fs: Seq<ProjectView>, ino: u64, index: int)
    requires
        within_limits(fs),
        directory_entries(fs, Inode::unpack(ino)) is Some,
        0 <= index < directory_entries(fs, Inode::unpack(ino))->0.len(),
    ensures
        directory_entries(fs, Inode::unpack(ino))->0[index].offset == index + 1,
{
    let inode = Inode::unpack(ino);
    match collection_of(inode.category) {
        Some(kind) => {
            assert(fs[inode.project - 1].collection(kind) is Some);
        },
        None => {},
    }
}

/// A read honours offset and size.  Where `ino` names content of `L`
/// bytes, a read of `L` bytes or more from the start returns all of it, a
/// read at or past `L` returns nothing, and a read at `offset` below `L`
/// returns the bytes from `offset` on, `size` of them or as many as are
/// left, whichever is less.
pub proof fn lemma_read_partial(fs: Seq<ProjectView>, ino: u64, offset: u64, size: u32)
    requires
        content_of(fs, ino) is Some,
    ensures
        read_reply(fs, ino, offset, size) is Some,
        offset == 0 && size >= content_of(fs, ino)->0.len() ==> read_reply(fs, ino, offset, size)->0
            == content_of(fs, ino)->0,
        offset >= content_of(fs, ino)->0.len() ==> read_reply(fs, ino, offset, size)->0.len() == 0,
        offset < content_of(fs, ino)->0.len() ==> read_reply(fs, ino, offset, size)->0.len()
            == if size <= content_of(fs, ino)->0.len() - offset {
            size as int
        } else {
            content_of(fs, ino)->0.len() - offset
        },
        forall|i: int|
            0 <= i < read_reply(fs, ino, offset, size)->0.len() ==> read_reply(
                fs,
                ino,
                offset,
                size,
            )->0[i] == content_of(fs, ino)->0[offset + i],
{
    lemma_window(content_of(fs, ino)->0, offset as int, size as int);
}

/// The size that an attribute query reports for a regular file is the
/// length of the content that a read of the same inode reads from.
pub proof fn lemma_size_is_content_length(fs: Seq<ProjectView>, ino: u64)
    requires
        getattr_reply(fs, ino) is Attr,
        getattr_reply(fs, ino)->attr.kind == FileKind::RegularFile,
    ensures
        content_of(fs, ino) is Some,
        getattr_reply(fs, ino)->attr.size == content_of(fs, ino)->0.len() as u64,
{
}

/// A file name made of an identifier resolves to the object that carries
/// the identifier, and a read of what it resolves to yields the object's
/// serialised form.
///
/// Let `parent` be the directory of a collection that is held, and let the
/// object at `index` be the first of the collection with its identifier,
/// the identifier with `.json` appended being none of the fixed names.
/// Then that file name resolves under `parent` to the indexed item `index`
/// of the parent's project and category, a regular file as long as the
/// object's serialised form, and every read of that item returns the
/// window of the serialised form that was asked for.
pub proof fn lemma_lookup_then_read(
    fs: Seq<ProjectView>,
    parent: u64,
    kind: CollectionKind,
    items: Seq<ObjectView>,
    index: int,
    offset: u64,
    size: u32,
)
    requires
        within_limits(fs),
        collection_of(Inode::unpack(parent).category) == Some(kind),
        Inode::unpack(parent).reserved == ReservedFile::KeepMe.spec_code(),
        project_at(fs, Inode::unpack(parent).project) is Some,
        project_at(fs, Inode::unpack(parent).project)->0.collection(kind) == Some(items),
        0 <= index < items.len(),
        forall|j: int| 0 <= j < index ==> items[j].identifier != items[index].identifier,
        named_item(filename_of(items[index].identifier)) is None,
    ensures
        lookup_reply(fs, parent, filename_of(items[index].identifier)) is Entry,
        Inode::unpack(lookup_reply(fs, parent, filename_of(items[index].identifier))->attr.ino)
            == (Inode {
            project: Inode::unpack(parent).project,
            category: Inode::unpack(parent).category,
            item: index as u32,
            reserved: ReservedFile::IndexedItem.spec_code(),
        }),
        lookup_reply(fs, parent, filename_of(items[index].identifier))->attr.kind
            == FileKind::RegularFile,
        lookup_reply(fs, parent, filename_of(items[index].identifier))->attr.size
            == items[index].json.len() as u64,
        read_reply(
            fs,
            lookup_reply(fs, parent, filename_of(items[index].identifier))->attr.ino,
            offset,
            size,
        ) == Some(window(items[index].json, offset as int, size as int)),
{
    let identifier = items[index].identifier;
    let inode = Inode::unpack(parent);
    assert(fs[inode.project - 1].collection(kind) is Some);
    lemma_identifier_of_filename(identifier);
    lemma_position_is(items, identifier, index);
    let child = Inode {
        project: inode.project,
        category: inode.category,
        item: index as u32,
        reserved: ReservedFile::IndexedItem.spec_code(),
    };
    lemma_unpack_pack(child);
}

/// No inode number goes unanswered, and one that means nothing is answered
/// "not found".  Where the category tag is none of the known ones (or is
/// the bound of the metadata range, which addresses nothing), an attribute
/// query and a listing are answered "not found" whatever the other fields
/// hold, a name that is none of the fixed ones does not resolve, and a read
/// is answered "not found" unless the reserved tag names a document.
pub proof fn lemma_unknown_category_not_found(
    fs: Seq<ProjectView>,
    ino: u64,
    name: Seq<char>,
    offset: u64,
    size: u32,
    limit: nat,
)
    requires
        Category::spec_from_code(Inode::unpack(ino).category) is None || Category::spec_from_code(
            Inode::unpack(ino).category,
        ) == Some(Category::MetadataLast),
    ensures
        getattr_reply(fs, ino) == AttrReply::NotFound,
        readdir_reply(fs, ino, offset as int, limit as int) is None,
        named_item(name) is None ==> lookup_reply(fs, ino, name) == EntryReply::NotFound,
        document_of(Inode::unpack(ino).reserved) is None ==> read_reply(fs, ino, offset, size)
            is None,
{
}

/// An inode number outside every project is answered "not found" by every
/// handler that needs a project: the attribute query, the listing, the
/// read, and the resolution of any name.
pub proof fn lemma_no_project_not_found(
    fs: Seq<ProjectView>,
    ino: u64,
    name: Seq<char>,
    offset: u64,
    size: u32,
    limit: nat,
)
    requires
        project_at(fs, Inode::unpack(ino).project) is None,
    ensures
        getattr_reply(fs, ino) == AttrReply::NotFound,
        readdir_reply(fs, ino, offset as int, limit as int) is None,
        lookup_reply(fs, ino, name) == EntryReply::NotFound,
        read_reply(fs, ino, offset, size) is None,
{
    match named_item(name) {
        Some(item) => {
            let child = item.spec_inode(Inode::unpack(ino).project);
            lemma_unpack_pack(child);
        },
        None => {},
    }
}

/// What is stored is read from the cache afterwards.  Once a collection of
/// an existing project has been stored, it is what is held of that kind for
/// that project, no fetch is due for it unless a refresh is forced, and
/// what is held of any other kind or project is what was held before.
pub proof fn lemma_stored_is_held(
    fs: Seq<ProjectView>,
    ordinal: u16,
    kind: CollectionKind,
    items: Seq<ObjectView>,
    other_ordinal: u16,
    other_kind: CollectionKind,
)
    requires
        project_at(fs, ordinal) is Some,
    ensures
        held_collection(with_collection(fs, ordinal, kind, items), ordinal, kind) == Some(items),
        !needs_fetch(with_collection(fs, ordinal, kind, items), ordinal, kind, false),
        needs_fetch(with_collection(fs, ordinal, kind, items), ordinal, kind, true),
        other_ordinal != ordinal || other_kind != kind ==> held_collection(
            with_collection(fs, ordinal, kind, items),
            other_ordinal,
            other_kind,
        ) == held_collection(fs, other_ordinal, other_kind),
{
}

/// Whether two states have the same projects in number and hold the same
/// `resource` of the project with the given ordinal, whatever else they hold.
pub open spec fn agree_on(
    a: Seq<ProjectView>,
    b: Seq<ProjectView>,
    project: u16,
    resource: Option<Resource>,
) -> bool {
    a.len() == b.len() && match (project_at(a, project), project_at(b, project), resource) {
        (Some(p), Some(q), Some(Resource::Document(document))) => p.document(document)
            == q.document(document),
        (Some(p), Some(q), Some(Resource::Collection(kind))) => p.collection(kind) == q.collection(
            kind,
        ),
        _ => true,
    }
}

/// The reply to an attribute query depends on the state only through the
/// number of projects and the resource that `getattr_resource` names.
pub proof fn lemma_getattr_reads(a: Seq<ProjectView>, b: Seq<ProjectView>, ino: u64)
    requires
        agree_on(a, b, Inode::unpack(ino).project, getattr_resource(ino)),
    ensures
        getattr_reply(a, ino) == getattr_reply(b, ino),
{
}

/// The reply to a name resolution depends on the state only through the
/// number of projects and the resource that `lookup_resource` names.
pub proof fn lemma_lookup_reads(
    a: Seq<ProjectView>,
    b: Seq<ProjectView>,
    parent: u64,
    name: Seq<char>,
)
    requires
        agree_on(a, b, Inode::unpack(parent).project, lookup_resource(parent, name)),
    ensures
        lookup_reply(a, parent, name) == lookup_reply(b, parent, name),
{
    match named_item(name) {
        Some(item) => {
            lemma_unpack_pack(item.spec_inode(Inode::unpack(parent).project));
        },
        None => {},
    }
}

/// The reply to a read depends on the state only through the number of
/// projects and the resource that `read_resource` names.
pub proof fn lemma_read_reads(
    a: Seq<ProjectView>,
    b: Seq<ProjectView>,
    ino: u64,
    offset: u64,
    size: u32,
)
    requires
        agree_on(a, b, Inode::unpack(ino).project, read_resource(ino)),
    ensures
        read_reply(a, ino, offset, size) == read_reply(b, ino, offset, size),
{
}

/// The reply to a listing depends on the state only through the number of
/// projects and the resource that `readdir_resource` names.
pub proof fn lemma_readdir_reads(
    a: Seq<ProjectView>,
    b: Seq<ProjectView>,
    ino: u64,
    offset: int,
    limit: int,
)
    requires
        agree_on(a, b, Inode::unpack(ino).project, readdir_resource(ino)),
    ensures
        readdir_reply(a, ino, offset, limit) == readdir_reply(b, ino, offset, limit),
{
}

} // verus!
