//! The inode number: a resource reference packed into 64 bits.
//!
//! From the most significant bit down the number holds the project ordinal
//! (16 bits), the category tag (8 bits), the item index (32 bits) and the
//! reserved tag (8 bits).  No table is kept: the number is the reference.

use vstd::prelude::*;

verus! {

/// Weight of the project field in the packed number.
pub const PROJECT_UNIT: u64 = 0x1_0000_0000_0000;

/// Weight of the category field in the packed number.
pub const CATEGORY_UNIT: u64 = 0x100_0000_0000;

/// Weight of the item field in the packed number.
pub const ITEM_UNIT: u64 = 0x100;

/// A decoded inode number.
#[derive(Clone, Copy, Debug, PartialEq, Eq, Structural)]
pub struct Inode {
    /// One-based project ordinal; 0 marks a handle outside every project.
    pub project: u16,
    /// Tag of the area of the tree.
    pub category: u8,
    /// Index into the collection that the category names.
    pub item: u32,
    /// Tag that tells documents, directories and indexed items apart.
    pub reserved: u8,
}

impl Inode {
    /// The number that the four fields pack into.
    pub open spec fn pack(self) -> u64 {
        (self.project * PROJECT_UNIT + self.category * CATEGORY_UNIT + self.item * ITEM_UNIT
            + self.reserved) as u64
    }

    /// The fields that a number unpacks into.
    pub open spec fn unpack(ino: u64) -> Inode {
        Inode {
            project: (ino / PROJECT_UNIT) as u16,
            category: ((ino / CATEGORY_UNIT) % 0x100) as u8,
            item: ((ino / ITEM_UNIT) % 0x1_0000_0000) as u32,
            reserved: (ino % 0x100) as u8,
        }
    }

    /// Packs four fields into an inode number.
    pub fn create(project: u16, category: u8, item: u32, reserved: u8) -> (ino: u64)
        ensures
            ino == (Inode { project, category, item, reserved }).pack(),
    {
        let inode = Inode { project, category, item, reserved };
        Inode::serialize(&inode)
    }

    /// Packs an inode into its number.
    pub fn serialize(inode: &Inode) -> (ino: u64)
        ensures
            ino == inode.pack(),
    {
        let project: u64 = inode.project as u64;
        let category: u64 = inode.category as u64;
        let item: u64 = inode.item as u64;
        let reserved: u64 = inode.reserved as u64;
        assert(((project << 48) | (category << 40) | (item << 8) | reserved) == project
            * 0x1_0000_0000_0000 + category * 0x100_0000_0000 + item * 0x100 + reserved)
            by (bit_vector)
            requires
                project <= 0xffff,
                category <= 0xff,
                item <= 0xffff_ffff,
                reserved <= 0xff,
        ;
        (project << 48) | (category << 40) | (item << 8) | reserved
    }

    /// Unpacks a number.  Every number unpacks into some inode; whether the
    /// tags in it mean anything is for the caller to decide.
    pub fn deserialize(ino: u64) -> (inode: Inode)
        ensures
            inode == Inode::unpack(ino),
    {
        assert((ino >> 48) == ino / 0x1_0000_0000_0000 && (ino >> 48) <= 0xffff) by (bit_vector);
        assert(((ino >> 40) & 0xff) == (ino / 0x100_0000_0000) % 0x100) by (bit_vector);
        assert(((ino >> 8) & 0xffff_ffff) == (ino / 0x100) % 0x1_0000_0000) by (bit_vector);
        assert((ino & 0xff) == ino % 0x100) by (bit_vector);
        Inode {
            project: (ino >> 48) as u16,
            category: ((ino >> 40) & 0xff) as u8,
            item: ((ino >> 8) & 0xffff_ffff) as u32,
            reserved: (ino & 0xff) as u8,
        }
    }
}

impl From<u64> for Inode {
    /// Unpacks a number, as `deserialize` does.
    fn from(ino: u64) -> (inode: Inode) {
        Inode::deserialize(ino)
    }
}

impl vstd::std_specs::convert::FromSpecImpl<u64> for Inode {
    open spec fn obeys_from_spec() -> bool {
        true
    }

    open spec fn from_spec(ino: u64) -> Inode {
        Inode::unpack(ino)
    }
}

impl From<Inode> for u64 {
    /// Packs an inode, as `serialize` does.
    fn from(inode: Inode) -> (ino: u64) {
        Inode::serialize(&inode)
    }
}

impl vstd::std_specs::convert::FromSpecImpl<Inode> for u64 {
    open spec fn obeys_from_spec() -> bool {
        true
    }

    open spec fn from_spec(inode: Inode) -> u64 {
        inode.pack()
    }
}

/// Unpacking a packed inode gives the inode back.
pub proof fn lemma_unpack_pack(inode: Inode)
    ensures
        Inode::unpack(inode.pack()) == inode,
{
    let project: u64 = inode.project as u64;
    let category: u64 = inode.category as u64;
    let item: u64 = inode.item as u64;
    let reserved: u64 = inode.reserved as u64;
    let sum: u64 = inode.pack();
    assert(sum / 0x1_0000_0000_0000 == project && (sum / 0x100_0000_0000) % 0x100 == category && (
    sum / 0x100) % 0x1_0000_0000 == item && sum % 0x100 == reserved) by (bit_vector)
        requires
            project <= 0xffff,
            category <= 0xff,
            item <= 0xffff_ffff,
            reserved <= 0xff,
            sum == project * 0x1_0000_0000_0000 + category * 0x100_0000_0000 + item * 0x100
                + reserved,
    ;
}

/// Packing an unpacked number gives the number back: every 64-bit number is
/// the number of exactly one inode.
pub proof fn lemma_pack_unpack(ino: u64)
    ensures
        Inode::unpack(ino).pack() == ino,
{
    let project: u64 = ino / 0x1_0000_0000_0000;
    let category: u64 = (ino / 0x100_0000_0000) % 0x100;
    let item: u64 = (ino / 0x100) % 0x1_0000_0000;
    let reserved: u64 = ino % 0x100;
    assert(project <= 0xffff && category <= 0xff && item <= 0xffff_ffff && reserved <= 0xff
        && project * 0x1_0000_0000_0000 + category * 0x100_0000_0000 + item * 0x100 + reserved
        == ino) by (bit_vector)
        requires
            project == ino / 0x1_0000_0000_0000,
            category == (ino / 0x100_0000_0000) % 0x100,
            item == (ino / 0x100) % 0x1_0000_0000,
            reserved == ino % 0x100,
    ;
}

/// Two different inodes never share a number.
pub proof fn lemma_pack_injective(a: Inode, b: Inode)
    requires
        a != b,
    ensures
        a.pack() != b.pack(),
{
    lemma_unpack_pack(a);
    lemma_unpack_pack(b);
}

} // verus!
