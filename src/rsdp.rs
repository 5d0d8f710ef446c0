//! The ACPI root system description pointer: finding it in the BIOS area,
//! checking its checksum and reading the address of the root table.

use vstd::prelude::*;

verus! {

/// The number of bytes of the pointer structure (revision 2 and later).
pub const RSDP_SIZE: usize = 36;

/// The number of bytes the revision-0 checksum covers.
pub const V1_LENGTH: usize = 20;

/// The candidates are 16-byte aligned.
pub const RSDP_ALIGNMENT: usize = 16;

/// Whether `b` holds the signature "RSD PTR " at `offset`.
pub open spec fn signature_at(b: Seq<u8>, offset: int) -> bool {
    &&& 0 <= offset
    &&& offset + 8 <= b.len()
    &&& b[offset] == 0x52u8
    &&& b[offset + 1] == 0x53u8
    &&& b[offset + 2] == 0x44u8
    &&& b[offset + 3] == 0x20u8
    &&& b[offset + 4] == 0x50u8
    &&& b[offset + 5] == 0x54u8
    &&& b[offset + 6] == 0x52u8
    &&& b[offset + 7] == 0x20u8
}

/// Whether a whole pointer structure with its signature starts at `offset`,
/// a multiple of sixteen.
pub open spec fn candidate_at(b: Seq<u8>, offset: int) -> bool {
    &&& offset % RSDP_ALIGNMENT as int == 0
    &&& offset + RSDP_SIZE <= b.len()
    &&& signature_at(b, offset)
}

/// The sum of the bytes of `s`, modulo 256.
pub open spec fn byte_sum(s: Seq<u8>) -> u8
    decreases s.len(),
{
    if s.len() == 0 {
        0
    } else {
        ((byte_sum(s.drop_last()) as int + s.last() as int) % 256) as u8
    }
}

/// The revision byte.
pub open spec fn revision_of(b: Seq<u8>) -> u8 {
    b[15]
}

/// The little-endian `u32` at `offset`.
pub open spec fn le_u32(b: Seq<u8>, offset: int) -> u32 {
    (b[offset] as u32) | ((b[offset + 1] as u32) << 8u32) | ((b[offset + 2] as u32) << 16u32) | ((
    b[offset + 3] as u32) << 24u32)
}

/// The little-endian `u64` at `offset`.
pub open spec fn le_u64(b: Seq<u8>, offset: int) -> u64 {
    (le_u32(b, offset) as u64) | ((le_u32(b, offset + 4) as u64) << 32u64)
}

/// How many bytes the checksum covers: 20 for revision 0, else the length field.
pub open spec fn covered_length(b: Seq<u8>) -> int {
    if revision_of(b) == 0 {
        V1_LENGTH as int
    } else {
        le_u32(b, 20) as int
    }
}

/// Whether the structure at the start of `b` is valid: the bytes its checksum
/// covers are all there and sum to zero.
pub open spec fn valid(b: Seq<u8>) -> bool {
    &&& covered_length(b) <= b.len()
    &&& byte_sum(b.take(covered_length(b))) == 0
}

/// A root system description pointer, with the bytes from its start to the end
/// of the area it was found in.
pub struct RSDP {
    bytes: Vec<u8>,
}

fn read_u32(b: &Vec<u8>, offset: usize) -> (r: u32)
    requires
        offset + 4 <= b@.len(),
    ensures
        r == le_u32(b@, offset as int),
{
    let _ = b.len();
    (b[offset] as u32) | ((b[offset + 1] as u32) << 8u32) | ((b[offset + 2] as u32) << 16u32) | ((
    b[offset + 3] as u32) << 24u32)
}

fn copy_from(area: &[u8], start: usize) -> (r: Vec<u8>)
    requires
        start <= area@.len(),
    ensures
        r@ == area@.subrange(start as int, area@.len() as int),
{
    let mut r: Vec<u8> = Vec::new();
    let mut i: usize = start;
    while i < area.len()
        invariant
            start <= i <= area@.len(),
            r@ == area@.subrange(start as int, i as int),
        decreases area@.len() - i,
    {
        r.push(area[i]);
        i = i + 1;
    }
    r
}

impl RSDP {
    /// The bytes of the structure and what follows it in its area.
    pub closed spec fn bytes(&self) -> Seq<u8> {
        self.bytes@
    }

    /// Whether the structure is whole.
    pub open spec fn wf(&self) -> bool {
        self.bytes().len() >= RSDP_SIZE
    }

    /// The structure at the start of `bytes`, if they hold a whole one.
    pub fn from_bytes(bytes: &[u8]) -> (r: Option<RSDP>)
        ensures
            bytes@.len() >= RSDP_SIZE <==> r is Some,
            r matches Some(p) ==> p.wf() && p.bytes() == bytes@,
    {
        if bytes.len() < RSDP_SIZE {
            None
        } else {
            let copied = copy_from(bytes, 0);
            assert(copied@ =~= bytes@);
            Some(RSDP { bytes: copied })
        }
    }

    /// The first 16-byte aligned structure with the signature in `area` (read
    /// as the BIOS area), if that structure is valid.
    pub fn find(area: &[u8]) -> (r: Option<RSDP>)
        ensures
            r matches Some(p) ==> exists|offset: int|
                {
                    &&& #[trigger] candidate_at(area@, offset)
                    &&& forall|o: int| 0 <= o < offset ==> !#[trigger] candidate_at(area@, o)
                    &&& p.bytes() == area@.subrange(offset, area@.len() as int)
                    &&& valid(p.bytes())
                    &&& p.wf()
                },
            r is None ==> forall|offset: int|
                #[trigger] candidate_at(area@, offset) ==> (exists|o: int|
                    0 <= o < offset && #[trigger] candidate_at(area@, o)) || !valid(
                    area@.subrange(offset, area@.len() as int),
                ),
    {
        let len = area.len();
        let mut offset: usize = 0;
        while offset < len
            invariant
                len == area@.len(),
                offset % RSDP_ALIGNMENT == 0,
                forall|o: int| 0 <= o < offset ==> !#[trigger] candidate_at(area@, o),
            decreases len - offset,
        {
            if len - offset >= RSDP_SIZE && area[offset] == 0x52u8 && area[offset + 1] == 0x53u8
                && area[offset + 2] == 0x44u8 && area[offset + 3] == 0x20u8 && area[offset + 4]
                == 0x50u8 && area[offset + 5] == 0x54u8 && area[offset + 6] == 0x52u8 && area[offset
                + 7] == 0x20u8 {
                let rsdp = RSDP { bytes: copy_from(area, offset) };
                assert(candidate_at(area@, offset as int));
                if rsdp.validate() {
                    return Some(rsdp);
                } else {
                    return None;
                }
            }
            assert(!candidate_at(area@, offset as int));
            if len - offset <= RSDP_ALIGNMENT {
                assert forall|o: int| 0 <= o < len implies !#[trigger] candidate_at(area@, o) by {
                    if o > offset {
                        assert(o + RSDP_SIZE > len);
                    }
                }
                return None;
            }
            assert forall|o: int| 0 <= o < offset + RSDP_ALIGNMENT implies !#[trigger] candidate_at(
                area@,
                o,
            ) by {
                if o > offset {
                    assert(o % 16 != 0);
                }
            }
            offset = offset + RSDP_ALIGNMENT;
        }
        None
    }

    /// The revision: 0 for ACPI 1.0, else 2 or later.
    pub fn revision(&self) -> (r: u8)
        requires
            self.wf(),
        ensures
            r == revision_of(self.bytes()),
    {
        self.bytes[15]
    }

    /// The address of the root table: the 32-bit RSDT address for revision 0,
    /// else the 64-bit XSDT address, if it fits in a `usize`.
    pub fn address(&self) -> (r: Option<usize>)
        requires
            self.wf(),
        ensures
            revision_of(self.bytes()) == 0 ==> r == Some(le_u32(self.bytes(), 16) as usize),
            revision_of(self.bytes()) != 0 ==> (r == if le_u64(self.bytes(), 24) <= usize::MAX {
                Some(le_u64(self.bytes(), 24) as usize)
            } else {
                None::<usize>
            }),
    {
        if self.revision() == 0 {
            Some(read_u32(&self.bytes, 16) as usize)
        } else {
            let xsdt = (read_u32(&self.bytes, 24) as u64) | ((read_u32(&self.bytes, 28) as u64)
                << 32u64);
            if xsdt <= usize::MAX as u64 {
                Some(xsdt as usize)
            } else {
                None
            }
        }
    }

    /// How many bytes the checksum covers.
    pub fn length(&self) -> (r: usize)
        requires
            self.wf(),
        ensures
            r == covered_length(self.bytes()),
    {
        if self.revision() == 0 {
            V1_LENGTH
        } else {
            read_u32(&self.bytes, 20) as usize
        }
    }

    /// The sum, modulo 256, of the bytes the checksum covers.
    pub fn checksum(&self) -> (r: u8)
        requires
            self.wf(),
            covered_length(self.bytes()) <= self.bytes().len(),
        ensures
            r == byte_sum(self.bytes().take(covered_length(self.bytes()))),
    {
        let n = self.length();
        let mut sum: u8 = 0;
        let mut i: usize = 0;
        while i < n
            invariant
                n == covered_length(self.bytes()),
                n <= self.bytes().len(),
                i <= n,
                sum == byte_sum(self.bytes().take(i as int)),
            decreases n - i,
        {
            assert(self.bytes().take(i + 1).drop_last() =~= self.bytes().take(i as int));
            sum = ((sum as u16 + self.bytes[i] as u16) % 256) as u8;
            i = i + 1;
        }
        sum
    }

    /// Whether the structure is valid: its checksum covers bytes that are all
    /// there, and they sum to zero.
    pub fn validate(&self) -> (r: bool)
        requires
            self.wf(),
        ensures
            r == valid(self.bytes()),
    {
        if self.length() > self.bytes.len() {
            false
        } else {
            self.checksum() == 0
        }
    }
}

} // verus!
