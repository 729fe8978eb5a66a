use gooddata_fs::fs::GoodDataFS;
use gooddata_fs::helpers::{
    create_inode_directory_attributes, create_inode_file_attributes, FileKind,
};
use gooddata_fs::inode::Inode;
use gooddata_fs::object::{Collection, CollectionKind, Document, Project, RemoteObject};
use gooddata_fs::project::{
    getattr, lookup, project_from_inode, read, readdir, resource_for_getattr,
    resource_for_lookup, resource_for_read, resource_for_readdir, Resource,
};
use gooddata_fs::reply::{AttrReply, DataReply, DirEntry, DirReply, EntryReply};

const TIME: i64 = 1381237736;

fn json(identifier: &str) -> String {
    format!("{{\"attribute\":{{\"identifier\":\"{}\"}}}}", identifier)
}

fn collection(identifiers: &[&str]) -> Collection {
    let mut items: Vec<RemoteObject> = Vec::new();
    for identifier in identifiers {
        items.push(RemoteObject::new(identifier.to_string(), json(identifier)));
    }
    Collection::new(items).unwrap()
}

/// Project 1 holds its four documents and two attributes; project 2 holds
/// eight attributes with "revenue" at index 7, two facts, no metric, and
/// has not fetched its reports.
fn state() -> GoodDataFS {
    let mut first = Project::new();
    first.set_document(Document::FeatureFlags, "{\"flags\":[]}".to_string());
    first.set_document(Document::ProjectJson, "{\"project\":1}".to_string());
    first.set_document(Document::Permissions, "{\"permissions\":[\"read\"]}".to_string());
    first.set_document(Document::Roles, "{\"roles\":[]}".to_string());
    first.store(CollectionKind::Attributes, collection(&["a", "b"]));
    let mut second = Project::new();
    second.store(
        CollectionKind::Attributes,
        collection(&["a0", "a1", "a2", "a3", "a4", "a5", "a6", "revenue"]),
    );
    second.store(CollectionKind::Facts, collection(&["f0", "f1"]));
    second.store(CollectionKind::Metrics, collection(&[]));
    GoodDataFS::new(vec![first, second])
}

fn file(ino: u64, size: u64) -> AttrReply {
    AttrReply::Attr { ttl: 1, attr: create_inode_file_attributes(ino, size, TIME) }
}

fn directory(ino: u64) -> AttrReply {
    AttrReply::Attr { ttl: 1, attr: create_inode_directory_attributes(ino, TIME) }
}

fn file_entry(ino: u64, size: u64) -> EntryReply {
    EntryReply::Entry { ttl: 1, attr: create_inode_file_attributes(ino, size, TIME), generation: 0 }
}

fn directory_entry(ino: u64) -> EntryReply {
    EntryReply::Entry { ttl: 1, attr: create_inode_directory_attributes(ino, TIME), generation: 0 }
}

fn line(ino: u64, offset: u64, kind: FileKind, name: &str) -> DirEntry {
    DirEntry { ino, offset, kind, name: name.to_string() }
}

fn entries(reply: DirReply) -> Vec<DirEntry> {
    match reply {
        DirReply::Entries(entries) => entries,
        DirReply::NotFound => panic!("not found"),
    }
}

#[test]
fn attributes_directory_has_directory_attributes_and_lists_the_attributes() {
    let fs = state();
    let ino = Inode::create(2, 3, 0, 5);
    assert_eq!(ino, 0x0002_0300_0000_0005);
    assert_eq!(getattr(&fs, ino), directory(ino));
    let listing = entries(readdir(&fs, ino, 0, usize::MAX));
    assert_eq!(listing.len(), 8);
    assert_eq!(listing[0], line(Inode::create(2, 3, 0, 0), 1, FileKind::RegularFile, "a0.json"));
    assert_eq!(listing[6], line(Inode::create(2, 3, 6, 0), 7, FileKind::RegularFile, "a6.json"));
    assert_eq!(
        listing[7],
        line(Inode::create(2, 3, 7, 0), 8, FileKind::RegularFile, "revenue.json")
    );
    let mut resumed: Vec<DirEntry> = Vec::new();
    let mut offset: u64 = 0;
    loop {
        let page = entries(readdir(&fs, ino, offset, 3));
        if page.is_empty() {
            break;
        }
        assert!(page.len() <= 3);
        assert_eq!(page.last().unwrap().offset, offset + page.len() as u64);
        offset += page.len() as u64;
        resumed.extend(page);
    }
    assert_eq!(offset, 8);
    assert_eq!(resumed, listing);
}

#[test]
fn listing_of_a_collection_not_held_names_the_fetch_and_succeeds_after_it() {
    let mut fs = state();
    let ino = Inode::create(2, 6, 0, 5);
    assert_eq!(readdir(&fs, ino, 0, 100), DirReply::NotFound);
    assert_eq!(resource_for_readdir(ino), Some(Resource::Collection(CollectionKind::Reports)));
    assert!(fs.needs_fetch(2, CollectionKind::Reports, false));
    assert!(fs.store(2, CollectionKind::Reports, collection(&["r0"])));
    assert!(!fs.needs_fetch(2, CollectionKind::Reports, false));
    assert_eq!(
        readdir(&fs, ino, 0, 100),
        DirReply::Entries(vec![line(
            Inode::create(2, 6, 0, 0),
            1,
            FileKind::RegularFile,
            "r0.json"
        )])
    );
}

#[test]
fn lookup_of_revenue_json_resolves_to_item_seven_and_reads_its_json() {
    let fs = state();
    let parent = Inode::create(2, 3, 0, 5);
    let reply = lookup(&fs, parent, "revenue.json");
    let child = Inode::create(2, 3, 7, 0);
    assert_eq!(child, 0x0002_0300_0000_0700);
    assert_eq!(reply, file_entry(child, 38));
    let inode = Inode::deserialize(child);
    assert_eq!(inode.item, 7);
    assert_eq!(inode.reserved, 0);
    assert_eq!(
        read(&fs, child, 0, 4096),
        DataReply::Data(b"{\"attribute\":{\"identifier\":\"revenue\"}}".to_vec())
    );
    assert_eq!(read(&fs, child, 0, 38), DataReply::Data(json("revenue").into_bytes()));
    assert_eq!(getattr(&fs, child), file(child, 38));
}

#[test]
fn lookup_of_nonexistent_json_is_not_found() {
    let fs = state();
    assert_eq!(lookup(&fs, Inode::create(2, 3, 0, 5), "nonexistent.json"), EntryReply::NotFound);
    assert_eq!(lookup(&fs, Inode::create(2, 4, 0, 5), "nonexistent.json"), EntryReply::NotFound);
    assert_eq!(lookup(&fs, Inode::create(2, 5, 0, 5), "nonexistent.json"), EntryReply::NotFound);
    assert_eq!(lookup(&fs, Inode::create(1, 0, 0, 5), "nonexistent.json"), EntryReply::NotFound);
}

#[test]
fn every_listed_object_resolves_and_reads_back() {
    let fs = state();
    for (project, category) in [(1u16, 3u8), (2, 3), (2, 4), (2, 5)] {
        let parent = Inode::create(project, category, 0, 5);
        for entry in entries(readdir(&fs, parent, 0, usize::MAX)) {
            let reply = lookup(&fs, parent, &entry.name);
            let identifier = entry.name.strip_suffix(".json").unwrap();
            let expected = json(identifier);
            assert_eq!(reply, file_entry(entry.ino, expected.len() as u64));
            assert_eq!(read(&fs, entry.ino, 0, u32::MAX), DataReply::Data(expected.into_bytes()));
        }
    }
}

#[test]
fn getattr_outside_every_project_is_not_found() {
    let fs = state();
    assert_eq!(getattr(&fs, 1), AttrReply::NotFound);
    assert_eq!(getattr(&fs, 0), AttrReply::NotFound);
    for category in 0..=9u8 {
        for reserved in 0..=6u8 {
            assert_eq!(getattr(&fs, Inode::create(0, category, 0, reserved)), AttrReply::NotFound);
        }
    }
}

#[test]
fn getattr_past_the_last_project_is_not_found() {
    let fs = state();
    for category in 0..=9u8 {
        for reserved in 0..=6u8 {
            assert_eq!(getattr(&fs, Inode::create(3, category, 0, reserved)), AttrReply::NotFound);
            assert_eq!(
                getattr(&fs, Inode::create(0xffff, category, 0, reserved)),
                AttrReply::NotFound
            );
        }
    }
}

#[test]
fn getattr_of_each_document_reports_its_length() {
    let fs = state();
    assert_eq!(getattr(&fs, Inode::create(1, 0, 0, 1)), file(Inode::create(1, 0, 0, 1), 12));
    assert_eq!(getattr(&fs, Inode::create(1, 0, 0, 2)), file(Inode::create(1, 0, 0, 2), 13));
    assert_eq!(getattr(&fs, Inode::create(1, 0, 0, 3)), file(Inode::create(1, 0, 0, 3), 24));
    assert_eq!(getattr(&fs, Inode::create(1, 0, 0, 4)), file(Inode::create(1, 0, 0, 4), 12));
}

#[test]
fn getattr_of_a_document_not_held_is_not_found() {
    let fs = state();
    for reserved in 1..=4u8 {
        assert_eq!(getattr(&fs, Inode::create(2, 0, 0, reserved)), AttrReply::NotFound);
    }
}

#[test]
fn getattr_in_the_internal_category_without_document_tag_is_not_found() {
    let fs = state();
    for reserved in [0u8, 5, 6, 100, 255] {
        assert_eq!(getattr(&fs, Inode::create(1, 0, 0, reserved)), AttrReply::NotFound);
    }
}

#[test]
fn getattr_of_the_fixed_directories_reports_directories() {
    let fs = state();
    for category in [1u8, 2, 7] {
        for reserved in [0u8, 1, 5, 200] {
            let ino = Inode::create(2, category, 9, reserved);
            assert_eq!(getattr(&fs, ino), directory(ino));
        }
    }
}

#[test]
fn getattr_of_a_collection_directory_reports_a_directory() {
    let fs = state();
    for category in 3..=6u8 {
        let ino = Inode::create(2, category, 0, 5);
        assert_eq!(getattr(&fs, ino), directory(ino));
    }
}

#[test]
fn getattr_of_an_object_reports_the_length_of_its_json() {
    let fs = state();
    let ino = Inode::create(2, 3, 0, 0);
    assert_eq!(getattr(&fs, ino), file(ino, json("a0").len() as u64));
    assert_eq!(getattr(&fs, ino), file(ino, 33));
    let fact = Inode::create(2, 4, 1, 0);
    assert_eq!(getattr(&fs, fact), file(fact, 33));
    let other = Inode::create(1, 3, 1, 0);
    assert_eq!(getattr(&fs, other), file(other, 32));
}

#[test]
fn getattr_of_an_index_outside_the_collection_is_not_found() {
    let fs = state();
    assert_eq!(getattr(&fs, Inode::create(2, 3, 8, 0)), AttrReply::NotFound);
    assert_eq!(getattr(&fs, Inode::create(2, 3, u32::MAX, 0)), AttrReply::NotFound);
    assert_eq!(getattr(&fs, Inode::create(2, 4, 2, 0)), AttrReply::NotFound);
    assert_eq!(getattr(&fs, Inode::create(2, 5, 0, 0)), AttrReply::NotFound);
}

#[test]
fn getattr_of_an_object_of_a_collection_not_held_is_not_found() {
    let fs = state();
    assert_eq!(getattr(&fs, Inode::create(2, 6, 0, 0)), AttrReply::NotFound);
    assert_eq!(getattr(&fs, Inode::create(1, 4, 0, 0)), AttrReply::NotFound);
}

#[test]
fn getattr_in_a_collection_with_any_other_tag_is_not_found() {
    let fs = state();
    for category in 3..=6u8 {
        for reserved in [1u8, 2, 3, 4, 6, 7, 128, 255] {
            assert_eq!(getattr(&fs, Inode::create(2, category, 0, reserved)), AttrReply::NotFound);
        }
    }
}

#[test]
fn getattr_of_an_unknown_category_is_not_found() {
    let fs = state();
    for category in [8u8, 9, 10, 100, 255] {
        for reserved in [0u8, 1, 2, 3, 4, 5, 6, 255] {
            for item in [0u32, 1, u32::MAX] {
                assert_eq!(
                    getattr(&fs, Inode::create(1, category, item, reserved)),
                    AttrReply::NotFound
                );
            }
        }
    }
}

#[test]
fn lookup_of_a_fixed_name_resolves_to_its_item() {
    let fs = state();
    let parent = Inode::create(1, 0, 0, 5);
    assert_eq!(lookup(&fs, parent, "featureflags.json"), file_entry(Inode::create(1, 0, 0, 1), 12));
    assert_eq!(lookup(&fs, parent, "project.json"), file_entry(Inode::create(1, 0, 0, 2), 13));
    assert_eq!(lookup(&fs, parent, "permissions.json"), file_entry(Inode::create(1, 0, 0, 3), 24));
    assert_eq!(lookup(&fs, parent, "roles.json"), file_entry(Inode::create(1, 0, 0, 4), 12));
    assert_eq!(lookup(&fs, parent, "ldm"), directory_entry(Inode::create(1, 1, 0, 5)));
    assert_eq!(lookup(&fs, parent, "metadata"), directory_entry(Inode::create(1, 2, 0, 5)));
    let metadata = Inode::create(1, 2, 0, 5);
    assert_eq!(lookup(&fs, metadata, "attributes"), directory_entry(Inode::create(1, 3, 0, 5)));
    assert_eq!(lookup(&fs, metadata, "facts"), directory_entry(Inode::create(1, 4, 0, 5)));
    assert_eq!(lookup(&fs, metadata, "metrics"), directory_entry(Inode::create(1, 5, 0, 5)));
    assert_eq!(lookup(&fs, metadata, "reports"), directory_entry(Inode::create(1, 6, 0, 5)));
    assert_eq!(
        lookup(&fs, metadata, "report_definitions"),
        directory_entry(Inode::create(1, 7, 0, 5))
    );
}

#[test]
fn lookup_of_a_fixed_name_takes_the_parents_project() {
    let fs = state();
    assert_eq!(
        lookup(&fs, Inode::create(2, 0, 0, 5), "metadata"),
        directory_entry(Inode::create(2, 2, 0, 5))
    );
    assert_eq!(
        lookup(&fs, Inode::create(2, 3, 4, 0), "ldm"),
        directory_entry(Inode::create(2, 1, 0, 5))
    );
}

#[test]
fn lookup_of_a_document_not_held_is_not_found() {
    let fs = state();
    let parent = Inode::create(2, 0, 0, 5);
    for name in ["featureflags.json", "project.json", "permissions.json", "roles.json"] {
        assert_eq!(lookup(&fs, parent, name), EntryReply::NotFound);
    }
}

#[test]
fn lookup_outside_every_project_is_not_found() {
    let fs = state();
    for name in ["featureflags.json", "ldm", "metadata", "attributes", "a.json", "revenue.json"] {
        assert_eq!(lookup(&fs, 1, name), EntryReply::NotFound);
        assert_eq!(lookup(&fs, Inode::create(0, 3, 0, 5), name), EntryReply::NotFound);
        assert_eq!(lookup(&fs, Inode::create(3, 3, 0, 5), name), EntryReply::NotFound);
    }
}

#[test]
fn lookup_matches_fixed_names_exactly() {
    let fs = state();
    let parent = Inode::create(1, 0, 0, 5);
    for name in ["LDM", "ldm ", "Metadata", "project.JSON", "featureflags", "roles.json.json", ""] {
        assert_eq!(lookup(&fs, parent, name), EntryReply::NotFound);
    }
}

#[test]
fn lookup_in_a_collection_strips_one_suffix() {
    let mut fs = state();
    let items = vec![
        RemoteObject::new("plain".to_string(), "1".to_string()),
        RemoteObject::new("dotted.json".to_string(), "22".to_string()),
    ];
    fs.store(2, CollectionKind::Reports, Collection::new(items).unwrap());
    let parent = Inode::create(2, 6, 0, 5);
    assert_eq!(lookup(&fs, parent, "plain.json"), file_entry(Inode::create(2, 6, 0, 0), 1));
    assert_eq!(lookup(&fs, parent, "plain"), file_entry(Inode::create(2, 6, 0, 0), 1));
    assert_eq!(lookup(&fs, parent, "dotted.json.json"), file_entry(Inode::create(2, 6, 1, 0), 2));
    assert_eq!(lookup(&fs, parent, "dotted.json"), EntryReply::NotFound);
    assert_eq!(lookup(&fs, parent, "plain.json.json"), EntryReply::NotFound);
}

#[test]
fn lookup_in_a_collection_is_case_sensitive() {
    let fs = state();
    let parent = Inode::create(2, 3, 0, 5);
    assert_eq!(lookup(&fs, parent, "Revenue.json"), EntryReply::NotFound);
    assert_eq!(lookup(&fs, parent, "REVENUE.json"), EntryReply::NotFound);
    assert_eq!(lookup(&fs, parent, "revenue.JSON"), EntryReply::NotFound);
}

#[test]
fn lookup_resolves_to_the_first_of_equal_identifiers() {
    let mut fs = state();
    let items = vec![
        RemoteObject::new("x".to_string(), "0".to_string()),
        RemoteObject::new("dup".to_string(), "first".to_string()),
        RemoteObject::new("dup".to_string(), "second!".to_string()),
    ];
    fs.store(1, CollectionKind::Metrics, Collection::new(items).unwrap());
    let reply = lookup(&fs, Inode::create(1, 5, 0, 5), "dup.json");
    assert_eq!(reply, file_entry(Inode::create(1, 5, 1, 0), 5));
    assert_eq!(read(&fs, Inode::create(1, 5, 1, 0), 0, 100), DataReply::Data(b"first".to_vec()));
}

#[test]
fn lookup_of_an_object_needs_the_directory_tag() {
    let fs = state();
    for reserved in [0u8, 1, 4, 6, 255] {
        assert_eq!(
            lookup(&fs, Inode::create(2, 3, 0, reserved), "revenue.json"),
            EntryReply::NotFound
        );
    }
}

#[test]
fn lookup_of_an_object_needs_a_collection_category() {
    let fs = state();
    for category in [0u8, 1, 2, 7, 8, 9, 255] {
        assert_eq!(
            lookup(&fs, Inode::create(2, category, 0, 5), "revenue.json"),
            EntryReply::NotFound
        );
    }
}

#[test]
fn lookup_in_a_collection_not_held_is_not_found() {
    let fs = state();
    assert_eq!(lookup(&fs, Inode::create(2, 6, 0, 5), "revenue.json"), EntryReply::NotFound);
    assert_eq!(lookup(&fs, Inode::create(1, 4, 0, 5), "f0.json"), EntryReply::NotFound);
}

#[test]
fn lookup_keeps_the_parents_category() {
    let fs = state();
    assert_eq!(
        lookup(&fs, Inode::create(2, 4, 0, 5), "f1.json"),
        file_entry(Inode::create(2, 4, 1, 0), 33)
    );
    assert_eq!(lookup(&fs, Inode::create(2, 3, 0, 5), "f1.json"), EntryReply::NotFound);
}

#[test]
fn fixed_name_wins_over_an_object_of_the_same_name() {
    let mut fs = state();
    let items = vec![RemoteObject::new("project".to_string(), "object".to_string())];
    fs.store(1, CollectionKind::Facts, Collection::new(items).unwrap());
    assert_eq!(
        lookup(&fs, Inode::create(1, 4, 0, 5), "project.json"),
        file_entry(Inode::create(1, 0, 0, 2), 13)
    );
}

#[test]
fn read_of_a_document_returns_its_json() {
    let fs = state();
    assert_eq!(
        read(&fs, Inode::create(1, 0, 0, 2), 0, 4096),
        DataReply::Data(b"{\"project\":1}".to_vec())
    );
    assert_eq!(
        read(&fs, Inode::create(1, 0, 0, 1), 0, 12),
        DataReply::Data(b"{\"flags\":[]}".to_vec())
    );
    assert_eq!(
        read(&fs, Inode::create(1, 0, 0, 3), 17, 4),
        DataReply::Data(b"read".to_vec())
    );
    assert_eq!(read(&fs, Inode::create(1, 0, 0, 4), 12, 10), DataReply::Data(Vec::new()));
}

#[test]
fn read_goes_by_the_document_tag_whatever_the_category() {
    let fs = state();
    for category in [0u8, 1, 3, 8, 9, 255] {
        assert_eq!(
            read(&fs, Inode::create(1, category, 77, 2), 0, 4096),
            DataReply::Data(b"{\"project\":1}".to_vec())
        );
    }
}

#[test]
fn read_of_a_document_not_held_is_not_found() {
    let fs = state();
    for reserved in 1..=4u8 {
        assert_eq!(read(&fs, Inode::create(2, 0, 0, reserved), 0, 16), DataReply::NotFound);
        assert_eq!(read(&fs, Inode::create(0, 0, 0, reserved), 0, 16), DataReply::NotFound);
    }
}

#[test]
fn read_of_an_object_honours_offset_and_size() {
    let fs = state();
    let ino = Inode::create(2, 3, 7, 0);
    let whole = json("revenue").into_bytes();
    assert_eq!(whole.len(), 38);
    assert_eq!(read(&fs, ino, 0, 38), DataReply::Data(whole.clone()));
    assert_eq!(read(&fs, ino, 38, 1), DataReply::Data(Vec::new()));
    assert_eq!(read(&fs, ino, 39, 100), DataReply::Data(Vec::new()));
    assert_eq!(read(&fs, ino, 28, 7), DataReply::Data(b"revenue".to_vec()));
    assert_eq!(read(&fs, ino, 28, 100), DataReply::Data(b"revenue\"}}".to_vec()));
    assert_eq!(read(&fs, ino, 10, 0), DataReply::Data(Vec::new()));
    for k in 0..38u64 {
        for m in [0u32, 1, 5, 37, 38, 39, u32::MAX] {
            let expected = std::cmp::min(m as u64, 38 - k) as usize;
            let start = k as usize;
            assert_eq!(
                read(&fs, ino, k, m),
                DataReply::Data(whole[start..start + expected].to_vec())
            );
        }
    }
}

#[test]
fn read_of_an_index_outside_the_collection_is_not_found() {
    let fs = state();
    assert_eq!(read(&fs, Inode::create(2, 3, 8, 0), 0, 16), DataReply::NotFound);
    assert_eq!(read(&fs, Inode::create(2, 5, 0, 0), 0, 16), DataReply::NotFound);
    assert_eq!(read(&fs, Inode::create(2, 6, 0, 0), 0, 16), DataReply::NotFound);
    assert_eq!(read(&fs, Inode::create(3, 3, 0, 0), 0, 16), DataReply::NotFound);
    assert_eq!(read(&fs, Inode::create(0, 3, 0, 0), 0, 16), DataReply::NotFound);
}

#[test]
fn read_in_the_metadata_range_without_collection_is_not_found() {
    let fs = state();
    for category in [2u8, 7, 8] {
        for reserved in [0u8, 5, 6] {
            assert_eq!(read(&fs, Inode::create(2, category, 0, reserved), 0, 16), DataReply::NotFound);
        }
    }
}

#[test]
fn read_outside_the_metadata_range_is_not_found() {
    let fs = state();
    for category in [0u8, 1, 9, 10, 255] {
        for reserved in [0u8, 5, 6, 255] {
            assert_eq!(read(&fs, Inode::create(2, category, 0, reserved), 0, 16), DataReply::NotFound);
        }
    }
}

#[test]
fn read_indexes_by_item_whatever_the_other_tag() {
    let fs = state();
    for reserved in [0u8, 5, 6, 255] {
        assert_eq!(
            read(&fs, Inode::create(2, 4, 1, reserved), 0, 100),
            DataReply::Data(json("f1").into_bytes())
        );
    }
}

#[test]
fn readdir_of_a_project_lists_the_table_in_order() {
    let fs = state();
    let ino = Inode::create(2, 0, 0, 5);
    assert_eq!(
        readdir(&fs, ino, 0, 100),
        DirReply::Entries(vec![
            line(Inode::create(2, 0, 0, 1), 1, FileKind::RegularFile, "featureflags.json"),
            line(Inode::create(2, 0, 0, 2), 2, FileKind::RegularFile, "project.json"),
            line(Inode::create(2, 0, 0, 3), 3, FileKind::RegularFile, "permissions.json"),
            line(Inode::create(2, 0, 0, 4), 4, FileKind::RegularFile, "roles.json"),
            line(Inode::create(2, 1, 0, 5), 5, FileKind::Directory, "ldm"),
            line(Inode::create(2, 2, 0, 5), 6, FileKind::Directory, "metadata"),
        ])
    );
}

#[test]
fn readdir_of_a_project_resumes_at_the_offset() {
    let fs = state();
    let ino = Inode::create(1, 0, 0, 5);
    assert_eq!(
        readdir(&fs, ino, 4, 100),
        DirReply::Entries(vec![
            line(Inode::create(1, 1, 0, 5), 5, FileKind::Directory, "ldm"),
            line(Inode::create(1, 2, 0, 5), 6, FileKind::Directory, "metadata"),
        ])
    );
    assert_eq!(
        readdir(&fs, ino, 5, 100),
        DirReply::Entries(vec![line(Inode::create(1, 2, 0, 5), 6, FileKind::Directory, "metadata")])
    );
    assert_eq!(readdir(&fs, ino, 6, 100), DirReply::Entries(Vec::new()));
    assert_eq!(readdir(&fs, ino, 7, 100), DirReply::Entries(Vec::new()));
    assert_eq!(readdir(&fs, ino, u64::MAX, usize::MAX), DirReply::Entries(Vec::new()));
}

#[test]
fn readdir_stops_at_the_limit() {
    let fs = state();
    let ino = Inode::create(1, 0, 0, 5);
    assert_eq!(readdir(&fs, ino, 0, 0), DirReply::Entries(Vec::new()));
    assert_eq!(
        readdir(&fs, ino, 1, 2),
        DirReply::Entries(vec![
            line(Inode::create(1, 0, 0, 2), 2, FileKind::RegularFile, "project.json"),
            line(Inode::create(1, 0, 0, 3), 3, FileKind::RegularFile, "permissions.json"),
        ])
    );
    assert_eq!(entries(readdir(&fs, ino, 0, 6)).len(), 6);
    assert_eq!(entries(readdir(&fs, ino, 0, 7)).len(), 6);
    assert_eq!(entries(readdir(&fs, ino, 3, usize::MAX)).len(), 3);
}

#[test]
fn readdir_in_pieces_gives_the_whole_listing() {
    let fs = state();
    for ino in [
        Inode::create(1, 0, 0, 5),
        Inode::create(1, 1, 0, 5),
        Inode::create(1, 2, 0, 5),
        Inode::create(2, 3, 0, 5),
        Inode::create(2, 4, 0, 5),
        Inode::create(2, 5, 0, 5),
    ] {
        let whole = entries(readdir(&fs, ino, 0, usize::MAX));
        for limits in [vec![1usize; 10], vec![2, 0, 3, 100], vec![0, 7, 1], vec![100]] {
            let mut pieces: Vec<DirEntry> = Vec::new();
            let mut offset: u64 = 0;
            for limit in limits {
                let page = entries(readdir(&fs, ino, offset, limit));
                offset += page.len() as u64;
                pieces.extend(page);
            }
            assert_eq!(pieces, whole);
        }
    }
}

#[test]
fn readdir_of_the_metadata_root_lists_the_collections() {
    let fs = state();
    assert_eq!(
        readdir(&fs, Inode::create(1, 2, 0, 5), 0, 100),
        DirReply::Entries(vec![
            line(Inode::create(1, 3, 0, 5), 1, FileKind::Directory, "attributes"),
            line(Inode::create(1, 4, 0, 5), 2, FileKind::Directory, "facts"),
            line(Inode::create(1, 5, 0, 5), 3, FileKind::Directory, "metrics"),
            line(Inode::create(1, 6, 0, 5), 4, FileKind::Directory, "reports"),
            line(Inode::create(1, 7, 0, 5), 5, FileKind::Directory, "report_definitions"),
        ])
    );
    assert_eq!(
        readdir(&fs, Inode::create(1, 2, 0, 5), 3, 1),
        DirReply::Entries(vec![line(Inode::create(1, 6, 0, 5), 4, FileKind::Directory, "reports")])
    );
}

#[test]
fn readdir_of_the_data_model_is_empty() {
    let fs = state();
    assert_eq!(readdir(&fs, Inode::create(1, 1, 0, 5), 0, 100), DirReply::Entries(Vec::new()));
    assert_eq!(readdir(&fs, Inode::create(1, 1, 0, 5), 3, 100), DirReply::Entries(Vec::new()));
}

#[test]
fn readdir_of_a_collection_lists_its_objects() {
    let fs = state();
    assert_eq!(
        readdir(&fs, Inode::create(2, 4, 0, 5), 0, 100),
        DirReply::Entries(vec![
            line(Inode::create(2, 4, 0, 0), 1, FileKind::RegularFile, "f0.json"),
            line(Inode::create(2, 4, 1, 0), 2, FileKind::RegularFile, "f1.json"),
        ])
    );
    assert_eq!(
        readdir(&fs, Inode::create(2, 4, 0, 5), 1, 100),
        DirReply::Entries(vec![line(Inode::create(2, 4, 1, 0), 2, FileKind::RegularFile, "f1.json")])
    );
    assert_eq!(readdir(&fs, Inode::create(2, 5, 0, 5), 0, 100), DirReply::Entries(Vec::new()));
}

#[test]
fn readdir_of_a_collection_not_held_is_not_found() {
    let fs = state();
    assert_eq!(readdir(&fs, Inode::create(2, 6, 0, 5), 0, 100), DirReply::NotFound);
    assert_eq!(readdir(&fs, Inode::create(1, 4, 0, 5), 0, 100), DirReply::NotFound);
}

#[test]
fn readdir_of_any_other_category_is_not_found() {
    let fs = state();
    for category in [7u8, 8, 9, 10, 100, 255] {
        for reserved in [0u8, 1, 5, 6, 255] {
            assert_eq!(
                readdir(&fs, Inode::create(1, category, 0, reserved), 0, 100),
                DirReply::NotFound
            );
        }
    }
}

#[test]
fn readdir_outside_every_project_is_not_found() {
    let fs = state();
    for category in 0..=9u8 {
        assert_eq!(readdir(&fs, Inode::create(0, category, 0, 5), 0, 100), DirReply::NotFound);
        assert_eq!(readdir(&fs, Inode::create(3, category, 0, 5), 0, 100), DirReply::NotFound);
    }
    assert_eq!(readdir(&fs, 1, 0, 100), DirReply::NotFound);
}

#[test]
fn project_from_inode_gives_the_project_of_the_ordinal() {
    let fs = state();
    let first = project_from_inode(&fs, Inode::create(1, 3, 0, 5)).unwrap();
    assert_eq!(first.document(Document::ProjectJson), Some("{\"project\":1}".as_bytes()));
    let second = project_from_inode(&fs, Inode::create(2, 0, 0, 0)).unwrap();
    assert_eq!(second.document(Document::ProjectJson), None);
    assert_eq!(second.collection(CollectionKind::Facts).unwrap().len(), 2);
}

#[test]
fn project_from_inode_takes_an_inode_as_well_as_its_number() {
    let fs = state();
    let inode = Inode { project: 2, category: 4, item: 1, reserved: 0 };
    let by_inode = project_from_inode(&fs, inode).unwrap();
    let by_number = project_from_inode(&fs, Inode::serialize(&inode)).unwrap();
    assert_eq!(by_inode, by_number);
    assert_eq!(by_inode.collection(CollectionKind::Facts).unwrap().len(), 2);
    assert!(project_from_inode(&fs, Inode { project: 0, category: 4, item: 1, reserved: 0 })
        .is_none());
}

#[test]
fn project_from_inode_rejects_numbers_without_project() {
    let fs = state();
    assert!(project_from_inode(&fs, 1u64).is_none());
    assert!(project_from_inode(&fs, 0u64).is_none());
    assert!(project_from_inode(&fs, Inode::create(3, 0, 0, 0)).is_none());
    assert!(project_from_inode(&fs, u64::MAX).is_none());
}

#[test]
fn getattr_names_the_resource_it_answers_from() {
    assert_eq!(
        resource_for_getattr(Inode::create(1, 0, 0, 1)),
        Some(Resource::Document(Document::FeatureFlags))
    );
    assert_eq!(
        resource_for_getattr(Inode::create(1, 0, 0, 4)),
        Some(Resource::Document(Document::Roles))
    );
    assert_eq!(
        resource_for_getattr(Inode::create(1, 4, 9, 0)),
        Some(Resource::Collection(CollectionKind::Facts))
    );
    assert_eq!(resource_for_getattr(Inode::create(1, 4, 0, 5)), None);
    assert_eq!(resource_for_getattr(Inode::create(1, 4, 0, 2)), None);
    assert_eq!(resource_for_getattr(Inode::create(1, 1, 0, 2)), None);
    assert_eq!(resource_for_getattr(Inode::create(1, 0, 0, 5)), None);
    assert_eq!(resource_for_getattr(Inode::create(0, 0, 0, 1)), None);
    assert_eq!(resource_for_getattr(Inode::create(1, 9, 0, 0)), None);
}

#[test]
fn lookup_names_the_resource_it_answers_from() {
    let parent = Inode::create(1, 5, 0, 5);
    assert_eq!(
        resource_for_lookup(parent, "m.json"),
        Some(Resource::Collection(CollectionKind::Metrics))
    );
    assert_eq!(
        resource_for_lookup(parent, "permissions.json"),
        Some(Resource::Document(Document::Permissions))
    );
    assert_eq!(
        resource_for_lookup(1, "project.json"),
        Some(Resource::Document(Document::ProjectJson))
    );
    assert_eq!(resource_for_lookup(parent, "ldm"), None);
    assert_eq!(resource_for_lookup(Inode::create(1, 5, 0, 0), "m.json"), None);
    assert_eq!(resource_for_lookup(Inode::create(1, 2, 0, 5), "m.json"), None);
}

#[test]
fn read_names_the_resource_it_answers_from() {
    assert_eq!(
        resource_for_read(Inode::create(1, 3, 0, 3)),
        Some(Resource::Document(Document::Permissions))
    );
    assert_eq!(
        resource_for_read(Inode::create(1, 3, 0, 0)),
        Some(Resource::Collection(CollectionKind::Attributes))
    );
    assert_eq!(
        resource_for_read(Inode::create(1, 6, 0, 5)),
        Some(Resource::Collection(CollectionKind::Reports))
    );
    assert_eq!(resource_for_read(Inode::create(1, 2, 0, 0)), None);
    assert_eq!(resource_for_read(Inode::create(1, 0, 0, 0)), None);
}

#[test]
fn readdir_names_the_resource_it_answers_from() {
    assert_eq!(
        resource_for_readdir(Inode::create(1, 3, 0, 5)),
        Some(Resource::Collection(CollectionKind::Attributes))
    );
    assert_eq!(
        resource_for_readdir(Inode::create(1, 4, 0, 5)),
        Some(Resource::Collection(CollectionKind::Facts))
    );
    assert_eq!(resource_for_readdir(Inode::create(1, 0, 0, 5)), None);
    assert_eq!(resource_for_readdir(Inode::create(1, 2, 0, 5)), None);
    assert_eq!(resource_for_readdir(Inode::create(1, 8, 0, 5)), None);
}

#[test]
fn replies_depend_on_the_named_resource_only() {
    let fs = state();
    let mut other = state();
    other.set_document(2, Document::Roles, "{\"changed\":true}".to_string());
    other.store(2, CollectionKind::Reports, collection(&["r"]));
    other.store(1, CollectionKind::Attributes, collection(&["z"]));
    let dir = Inode::create(2, 3, 0, 5);
    let object = Inode::create(2, 3, 7, 0);
    assert_eq!(getattr(&other, object), getattr(&fs, object));
    assert_eq!(lookup(&other, dir, "revenue.json"), lookup(&fs, dir, "revenue.json"));
    assert_eq!(read(&other, object, 3, 9), read(&fs, object, 3, 9));
    assert_eq!(readdir(&other, dir, 2, 4), readdir(&fs, dir, 2, 4));
}
