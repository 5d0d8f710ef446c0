//! The boot loader hand-off: the Multiboot 2 magic number and the information
//! structure, read as little-endian bytes.

use vstd::prelude::*;
use crate::alignment::{align_up, is_power_of_two};

verus! {

/// The value a Multiboot 2 loader leaves in the magic register.
pub const MAGIC: u32 = 0x36D7_6289;

/// Whether the loader's magic value is the Multiboot 2 one; the kernel refuses
/// to run under any other loader.
pub fn validate(actual: u32) -> (r: bool)
    ensures
        r == (actual == MAGIC),
{
    actual == MAGIC
}

/// The tag type that ends the tag list.
pub const END_TAG: u32 = 0;

/// The tag type of the memory map.
pub const MEMORY_MAP_TAG: u32 = 6;

/// The offset of the first tag, after the total size and a reserved word.
pub const FIRST_TAG: usize = 8;

/// The little-endian `u32` at `offset`.
pub open spec fn u32_at(b: Seq<u8>, offset: int) -> u32 {
    (b[offset] as u32) | ((b[offset + 1] as u32) << 8u32) | ((b[offset + 2] as u32) << 16u32) | ((
    b[offset + 3] as u32) << 24u32)
}

/// The little-endian `u64` at `offset`.
pub open spec fn u64_at(b: Seq<u8>, offset: int) -> u64 {
    (u32_at(b, offset) as u64) | ((u32_at(b, offset + 4) as u64) << 32u64)
}

fn read_u32(b: &Vec<u8>, offset: usize) -> (r: u32)
    requires
        offset + 4 <= b@.len(),
    ensures
        r == u32_at(b@, offset as int),
{
    let _ = b.len();
    (b[offset] as u32) | ((b[offset + 1] as u32) << 8u32) | ((b[offset + 2] as u32) << 16u32) | ((
    b[offset + 3] as u32) << 24u32)
}

fn read_u64(b: &Vec<u8>, offset: usize) -> (r: u64)
    requires
        offset + 8 <= b@.len(),
    ensures
        r == u64_at(b@, offset as int),
{
    let _ = b.len();
    (read_u32(b, offset) as u64) | ((read_u32(b, offset + 4) as u64) << 32u64)
}

/// One tag of the information structure: its type, its size in bytes
/// (header included) and where it starts.
#[derive(Clone, Copy, Debug, PartialEq, Eq, Structural)]
pub struct Tag {
    pub kind: u32,
    pub size: u32,
    pub offset: usize,
}

/// Whether a tag header at `offset` reads as a tag: not the end tag, at least
/// its eight header bytes long, and inside the structure.
pub open spec fn tag_at(b: Seq<u8>, offset: int) -> bool {
    &&& offset + 8 <= b.len()
    &&& u32_at(b, offset) != END_TAG
    &&& u32_at(b, offset + 4) >= 8
    &&& offset + u32_at(b, offset + 4) <= b.len()
}

/// Whether `next` is where the tag after `tag` starts: the first multiple of
/// eight at or after the tag's end.
pub open spec fn follows(tag: Tag, next: int) -> bool {
    &&& next >= 0
    &&& next % 8 == 0
    &&& tag.offset + tag.size <= next < tag.offset + tag.size + 8
}

/// Whether `tags` is the list of tags of `b`, in order, up to the end tag or
/// to the first header that does not read as a tag.
pub open spec fn tag_list(b: Seq<u8>, tags: Seq<Tag>) -> bool {
    &&& forall|j: int|
        0 <= j < tags.len() ==> {
            &&& tag_at(b, #[trigger] tags[j].offset as int)
            &&& tags[j].kind == u32_at(b, tags[j].offset as int)
            &&& tags[j].size == u32_at(b, tags[j].offset + 4)
        }
    &&& tags.len() > 0 ==> tags[0].offset == FIRST_TAG
    &&& forall|j: int| 0 <= j < tags.len() - 1 ==> follows(#[trigger] tags[j], tags[j + 1].offset as int)
    &&& tags.len() == 0 ==> !tag_at(b, FIRST_TAG as int)
    &&& tags.len() > 0 ==> exists|next: int| follows(tags.last(), next) && !tag_at(b, next)
}

/// Whether `t` is the first tag of type `kind` in the tag list of `b`.
pub open spec fn first_tag_of(b: Seq<u8>, kind: u32, t: Tag) -> bool {
    exists|tags: Seq<Tag>, i: int|
        {
            &&& tag_list(b, tags)
            &&& 0 <= i < tags.len()
            &&& #[trigger] tags[i] == t
            &&& t.kind == kind
            &&& forall|j: int| 0 <= j < i ==> (#[trigger] tags[j]).kind != kind
        }
}

/// Whether the tag list of `b` holds no tag of type `kind`.
pub open spec fn no_tag_of(b: Seq<u8>, kind: u32) -> bool {
    exists|tags: Seq<Tag>|
        {
            &&& #[trigger] tag_list(b, tags)
            &&& forall|j: int| 0 <= j < tags.len() ==> (#[trigger] tags[j]).kind != kind
        }
}

/// The entry size a memory-map tag gives.
pub open spec fn entry_size_of(b: Seq<u8>, t: Tag) -> u32 {
    u32_at(b, t.offset + 8)
}

/// The number of entries of a memory-map tag: none when the tag is too short
/// to hold its header or its entry size is too small for an entry.
pub open spec fn entry_count_of(b: Seq<u8>, t: Tag) -> nat {
    if t.size >= FIRST_ENTRY && entry_size_of(b, t) >= MIN_ENTRY_SIZE {
        ((t.size - FIRST_ENTRY) as nat / entry_size_of(b, t) as nat) as nat
    } else {
        0
    }
}

/// The regions of the memory-map tag `t`.
pub open spec fn regions_of(b: Seq<u8>, t: Tag) -> Seq<Region> {
    Seq::new(
        entry_count_of(b, t),
        |j: int| region_at(b, t.offset + FIRST_ENTRY + j * entry_size_of(b, t)),
    )
}

/// Where a memory-map entry starts within its tag, after the tag's header,
/// entry size and entry version.
pub const FIRST_ENTRY: usize = 16;

/// The smallest entry a memory map can hold: base, length and type.
pub const MIN_ENTRY_SIZE: u32 = 24;

/// The kinds of memory region the loader reports.
#[derive(Clone, Copy, Debug, PartialEq, Eq, Structural)]
pub enum Kind {
    Reserved,
    Available,
    Reclaimable,
    Nonvolatile,
    Defective,
}

/// The kind that a region type number stands for; unknown numbers are reserved.
pub open spec fn kind_of(value: u32) -> Kind {
    if value == 1 {
        Kind::Available
    } else if value == 3 {
        Kind::Reclaimable
    } else if value == 4 {
        Kind::Nonvolatile
    } else if value == 5 {
        Kind::Defective
    } else {
        Kind::Reserved
    }
}

impl Kind {
    /// The name the kernel prints for the kind.
    pub fn to_str(&self) -> (r: &'static str)
        ensures
            *self == Kind::Reserved ==> r@ == "Reserved"@,
            *self == Kind::Available ==> r@ == "Available"@,
            *self == Kind::Reclaimable ==> r@ == "Reclaimable (ACPI)"@,
            *self == Kind::Nonvolatile ==> r@ == "Non-volatile (ACPI)"@,
            *self == Kind::Defective ==> r@ == "Defective"@,
    {
        match self {
            Kind::Reserved => "Reserved",
            Kind::Available => "Available",
            Kind::Reclaimable => "Reclaimable (ACPI)",
            Kind::Nonvolatile => "Non-volatile (ACPI)",
            Kind::Defective => "Defective",
        }
    }
}

/// One entry of the memory map.
#[derive(Clone, Copy, Debug, PartialEq, Eq, Structural)]
pub struct Region {
    pub base: u64,
    pub length: u64,
    pub kind: u32,
}

/// The entry at `offset`: base, length and type number.
pub open spec fn region_at(b: Seq<u8>, offset: int) -> Region {
    Region { base: u64_at(b, offset), length: u64_at(b, offset + 8), kind: u32_at(b, offset + 16) }
}

impl Region {
    /// The region with these fields.
    pub fn new(base: u64, length: u64, kind: u32) -> (r: Region)
        ensures
            r == (Region { base, length, kind }),
    {
        Region { base, length, kind }
    }

    /// The first address of the region.
    pub fn starts_at(&self) -> (r: u64)
        ensures
            r == self.base,
    {
        self.base
    }

    /// The address just past the region.
    pub fn ends_at(&self) -> (r: u64)
        requires
            self.base + self.length <= u64::MAX,
        ensures
            r == self.base + self.length,
    {
        self.starts_at() + self.length()
    }

    /// The size of the region in bytes.
    pub fn length(&self) -> (r: u64)
        ensures
            r == self.length,
    {
        self.length
    }

    /// The kind of the region.
    pub fn kind(&self) -> (r: Kind)
        ensures
            r == kind_of(self.kind),
    {
        if self.kind == 1 {
            Kind::Available
        } else if self.kind == 3 {
            Kind::Reclaimable
        } else if self.kind == 4 {
            Kind::Nonvolatile
        } else if self.kind == 5 {
            Kind::Defective
        } else {
            Kind::Reserved
        }
    }
}

/// The memory map the loader passed.
pub struct MemoryMap {
    regions: Vec<Region>,
}

impl MemoryMap {
    /// The regions, in the loader's order.
    pub closed spec fn regions_spec(&self) -> Seq<Region> {
        self.regions@
    }

    /// The regions, in the loader's order.
    pub fn regions(&self) -> (r: &Vec<Region>)
        ensures
            r@ == self.regions_spec(),
    {
        &self.regions
    }
}

/// The information structure the loader passed, as bytes.
pub struct Info {
    bytes: Vec<u8>,
}

impl Info {
    /// The structure held in `bytes`.
    pub fn new(bytes: Vec<u8>) -> (r: Info)
        ensures
            r.bytes() == bytes@,
    {
        Info { bytes }
    }

    /// The bytes of the structure.
    pub closed spec fn bytes(&self) -> Seq<u8> {
        self.bytes@
    }

    /// The tags before the end tag, in order; the list stops early at a header
    /// that does not read as a tag.
    pub fn tags(&self) -> (r: Vec<Tag>)
        ensures
            tag_list(self.bytes(), r@),
    {
        let b = &self.bytes;
        let len = b.len();
        let mut tags: Vec<Tag> = Vec::new();
        let mut offset: usize = FIRST_TAG;
        loop
            invariant_except_break
                tags@.len() > 0 ==> follows(tags@.last(), offset as int),
            invariant
                b@ == self.bytes(),
                len == b@.len(),
                offset % 8 == 0,
                offset <= len + 8,
                forall|j: int|
                    0 <= j < tags@.len() ==> {
                        &&& tag_at(b@, #[trigger] tags@[j].offset as int)
                        &&& tags@[j].kind == u32_at(b@, tags@[j].offset as int)
                        &&& tags@[j].size == u32_at(b@, tags@[j].offset + 4)
                    },
                tags@.len() > 0 ==> tags@[0].offset == FIRST_TAG,
                forall|j: int|
                    0 <= j < tags@.len() - 1 ==> follows(#[trigger] tags@[j], tags@[j + 1].offset as int),
                tags@.len() == 0 ==> offset == FIRST_TAG,
            ensures
                tag_list(b@, tags@),
            decreases len + 8 - offset,
        {
            if offset > len || len - offset < 8 {
                assert(!tag_at(b@, offset as int));
                break;
            }
            let kind = read_u32(b, offset);
            let size = read_u32(b, offset + 4);
            if kind == END_TAG || size < 8 || size as usize > len - offset {
                assert(!tag_at(b@, offset as int));
                break;
            }
            let end = offset + size as usize;
            tags.push(Tag { kind, size, offset });
            if end > usize::MAX - 8 {
                proof {
                    let next = (end + 7) / 8 * 8;
                    assert(follows(tags@.last(), next));
                    assert(!tag_at(b@, next));
                }
                break;
            }
            assert(is_power_of_two(8)) by (bit_vector);
            let next = align_up(end, 8);
            assert(next % 8 == 0) by (bit_vector)
                requires
                    next & 7 == 0,
            ;
            offset = next;
        }
        tags
    }

    /// The first tag of type `kind`, if any.
    pub fn tag(&self, kind: u32) -> (r: Option<Tag>)
        ensures
            r matches Some(t) ==> first_tag_of(self.bytes(), kind, t),
            r is None ==> no_tag_of(self.bytes(), kind),
    {
        let tags = self.tags();
        let mut i: usize = 0;
        while i < tags.len()
            invariant
                tag_list(self.bytes(), tags@),
                i <= tags@.len(),
                forall|j: int| 0 <= j < i ==> (#[trigger] tags@[j]).kind != kind,
            decreases tags@.len() - i,
        {
            if tags[i].kind == kind {
                assert(tags@[i as int] == tags[i as int]);
                assert(first_tag_of(self.bytes(), kind, tags[i as int]));
                return Some(tags[i]);
            }
            i = i + 1;
        }
        assert(no_tag_of(self.bytes(), kind));
        None
    }

    /// The memory map, from the first memory-map tag, if there is one.
    pub fn memory_map(&self) -> (r: Option<MemoryMap>)
        ensures
            r matches Some(m) ==> exists|t: Tag|
                first_tag_of(self.bytes(), MEMORY_MAP_TAG, t) && m.regions_spec() == #[trigger] regions_of(self.bytes(), t),
            r is None ==> no_tag_of(self.bytes(), MEMORY_MAP_TAG),
    {
        match self.tag(MEMORY_MAP_TAG) {
            None => None,
            Some(t) => {
                let regions = self.regions(t);
                Some(MemoryMap { regions })
            },
        }
    }

    fn regions(&self, t: Tag) -> (r: Vec<Region>)
        requires
            tag_at(self.bytes(), t.offset as int),
            t.size == u32_at(self.bytes(), t.offset + 4),
        ensures
            r@ == regions_of(self.bytes(), t),
    {
        let b = &self.bytes;
        let _ = b.len();
        let mut regions: Vec<Region> = Vec::new();
        if t.size < FIRST_ENTRY as u32 {
            assert(regions@ =~= regions_of(b@, t));
            return regions;
        }
        let entry_size = read_u32(b, t.offset + 8);
        if entry_size < MIN_ENTRY_SIZE {
            assert(regions@ =~= regions_of(b@, t));
            return regions;
        }
        let end = t.offset + t.size as usize;
        let mut position = t.offset + FIRST_ENTRY;
        let ghost first = t.offset as int + FIRST_ENTRY as int;
        let ghost span = t.size as int - FIRST_ENTRY as int;
        while position <= end && end - position >= entry_size as usize
            invariant
                b@ == self.bytes(),
                end as int == t.offset as int + t.size as int,
                end <= b@.len(),
                entry_size == entry_size_of(b@, t),
                entry_size >= MIN_ENTRY_SIZE,
                t.size >= FIRST_ENTRY,
                span == t.size as int - FIRST_ENTRY as int,
                first == t.offset as int + FIRST_ENTRY as int,
                first <= position,
                position == first + regions@.len() * entry_size,
                regions@.len() * entry_size <= span,
                forall|j: int|
                    0 <= j < regions@.len() ==> #[trigger] regions@[j] == region_at(
                        b@,
                        first + j * entry_size,
                    ),
            decreases end + 1 - position,
        {
            let base = read_u64(b, position);
            let length = read_u64(b, position + 8);
            let kind = read_u32(b, position + 16);
            regions.push(Region { base, length, kind });
            proof {
                let n = regions@.len() as int;
                let e = entry_size as int;
                assert(n * e == (n - 1) * e + e) by (nonlinear_arith);
            }
            position = position + entry_size as usize;
        }
        proof {
            let k = regions@.len() as int;
            let e = entry_size as int;
            assert(span < (k + 1) * e) by (nonlinear_arith)
                requires
                    first + k * e + e > first + span,
            ;
            assert(k == span / e) by (nonlinear_arith)
                requires
                    k * e <= span,
                    span < (k + 1) * e,
                    e > 0,
                    k >= 0,
            ;
            assert(regions@ =~= regions_of(b@, t));
        }
        regions
    }
}

} // verus!
