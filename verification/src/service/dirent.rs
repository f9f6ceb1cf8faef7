//! Directory records as `getdents64` writes them on a little-endian host, the only kind
//! this runtime targets: an 8-byte inode number, an 8-byte signed offset, a 2-byte record
//! length, a 1-byte type and a NUL-terminated name, one record after another.
use vstd::prelude::*;

verus! {

/// Where the name starts in a record.
pub const NAME_OFFSET: usize = 19;

/// The size of the name field of a directory entry.
pub const NAME_LEN: usize = 256;

/// A directory entry: the name holds at most 255 bytes, the rest is zero.
pub struct DEntry {
    pub d_ino: usize,
    pub d_off: i64,
    pub d_reclen: u16,
    pub d_type: u8,
    pub d_name: Vec<u8>,
}

/// A directory entry, as a value.
#[verifier::ext_equal]
pub struct DEntryView {
    pub d_ino: usize,
    pub d_off: i64,
    pub d_reclen: u16,
    pub d_type: u8,
    pub d_name: Seq<u8>,
}

impl View for DEntry {
    type V = DEntryView;

    open spec fn view(&self) -> DEntryView {
        DEntryView {
            d_ino: self.d_ino,
            d_off: self.d_off,
            d_reclen: self.d_reclen,
            d_type: self.d_type,
            d_name: self.d_name@,
        }
    }
}

/// The little-endian 64-bit number at `o`.
pub open spec fn le_u64(b: Seq<u8>, o: int) -> u64 {
    (b[o] + 256 * (b[o + 1] + 256 * (b[o + 2] + 256 * (b[o + 3] + 256 * (b[o + 4] + 256 * (b[o + 5]
        + 256 * (b[o + 6] + 256 * b[o + 7]))))))) as u64
}

/// The little-endian 16-bit number at `o`.
pub open spec fn le_u16(b: Seq<u8>, o: int) -> u16 {
    (b[o] + 256 * b[o + 1]) as u16
}

/// The length of the record at `off`.
pub open spec fn reclen_at(b: Seq<u8>, off: int) -> int {
    le_u16(b, off + 16) as int
}

/// The record at `off` has its header in the buffer, a length that moves on, and a name
/// that ends with a NUL inside the buffer.
pub open spec fn record_ok(b: Seq<u8>, off: int) -> bool {
    &&& off + NAME_OFFSET <= b.len()
    &&& reclen_at(b, off) > 0
    &&& exists|n: int| off + NAME_OFFSET <= n < b.len() && b[n] == 0
}

/// The records from `off` up to `end` are all well formed.
pub open spec fn records_ok(b: Seq<u8>, end: int, off: int) -> bool
    decreases (if off < end { end - off } else { 0 }),
{
    if off >= end {
        true
    } else if !record_ok(b, off) {
        false
    } else {
        records_ok(b, end, off + reclen_at(b, off))
    }
}

/// The length of the NUL-terminated string at `start`.
pub open spec fn c_strlen(b: Seq<u8>, start: int) -> int
    decreases b.len() - start,
{
    if start >= b.len() || b[start] == 0 {
        0
    } else {
        1 + c_strlen(b, start + 1)
    }
}

/// The name field of the record at `off`: its first 255 name bytes at most, then zeros.
pub open spec fn name_field(b: Seq<u8>, off: int) -> Seq<u8> {
    let l = c_strlen(b, off + NAME_OFFSET);
    let n = if l < 255 {
        l
    } else {
        255
    };
    Seq::new(NAME_LEN as nat, |i: int| if i < n { b[off + NAME_OFFSET + i] } else { 0u8 })
}

/// The entry that the record at `off` describes.
pub open spec fn entry_at(b: Seq<u8>, off: int) -> DEntryView {
    DEntryView {
        d_ino: le_u64(b, off) as usize,
        d_off: le_u64(b, off + 8) as i64,
        d_reclen: le_u16(b, off + 16),
        d_type: b[off + 18],
        d_name: name_field(b, off),
    }
}

/// The entries of the records from `off` up to `end`.
pub open spec fn entries_from(b: Seq<u8>, end: int, off: int) -> Seq<DEntryView>
    decreases (if off < end { end - off } else { 0 }),
{
    if off >= end || !record_ok(b, off) {
        Seq::empty()
    } else {
        seq![entry_at(b, off)] + entries_from(b, end, off + reclen_at(b, off))
    }
}

/// The entry of a well-formed record carries the record's whole 64-bit inode number
/// and 64-bit offset, each read from its eight bytes with the least significant first;
/// the offset keeps all its bits, as the cookie that resumes a listing must.
pub proof fn law_entry_fields(b: Seq<u8>, end: int, off: int)
    requires
        0 <= off < end,
        record_ok(b, off),
    ensures
        entries_from(b, end, off).len() > 0,
        usize::BITS == 64 ==> entries_from(b, end, off)[0].d_ino == b[off] + b[off + 1] * 0x100 + b[off + 2]
            * 0x1_0000 + b[off + 3] * 0x100_0000 + b[off + 4] * 0x1_0000_0000 + b[off + 5] * 0x100_0000_0000
            + b[off + 6] * 0x1_0000_0000_0000 + b[off + 7] * 0x100_0000_0000_0000,
        entries_from(b, end, off)[0].d_off as u64 == b[off + 8] + b[off + 9] * 0x100 + b[off + 10] * 0x1_0000
            + b[off + 11] * 0x100_0000 + b[off + 12] * 0x1_0000_0000 + b[off + 13] * 0x100_0000_0000 + b[off
            + 14] * 0x1_0000_0000_0000 + b[off + 15] * 0x100_0000_0000_0000,
{
    let v = le_u64(b, off + 8);
    assert((v as i64) as u64 == v) by (bit_vector);
}

fn read_le_u64(b: &Vec<u8>, o: usize) -> (v: u64)
    requires
        o + 8 <= b@.len(),
        b@.len() <= isize::MAX,
    ensures
        v == le_u64(b@, o as int),
{
    let v: u64 = b[o] as u64 + 256 * (b[o + 1] as u64 + 256 * (b[o + 2] as u64 + 256 * (b[o + 3] as u64 + 256 * (
    b[o + 4] as u64 + 256 * (b[o + 5] as u64 + 256 * (b[o + 6] as u64 + 256 * (b[o + 7] as u64)))))));
    v
}

fn read_le_u16(b: &Vec<u8>, o: usize) -> (v: u16)
    requires
        o + 2 <= b@.len(),
        b@.len() <= isize::MAX,
    ensures
        v == le_u16(b@, o as int),
{
    b[o] as u16 + 256 * (b[o + 1] as u16)
}

fn strlen_at(b: &Vec<u8>, start: usize) -> (n: usize)
    requires
        exists|k: int| start <= k < b@.len() && b@[k] == 0,
        b@.len() <= isize::MAX,
    ensures
        n == c_strlen(b@, start as int),
        start + n < b@.len(),
        b@[start + n] == 0,
{
    let mut i: usize = start;
    while i < b.len() && b[i] != 0
        invariant
            start <= i <= b@.len(),
            c_strlen(b@, start as int) == (i - start) + c_strlen(b@, i as int),
            exists|k: int| i <= k < b@.len() && b@[k] == 0,
        decreases b@.len() - i,
    {
        i = i + 1;
    }
    i - start
}

/// Checks that the first `end` bytes of `b` are a run of well-formed records.
pub fn records_well_formed(b: &Vec<u8>, end: usize) -> (ok: bool)
    requires
        end <= b@.len(),
        b@.len() <= isize::MAX,
    ensures
        ok == records_ok(b@, end as int, 0),
{
    let mut off: usize = 0;
    while off < end
        invariant
            off <= b@.len() || off >= end,
            end <= b@.len(),
            b@.len() <= isize::MAX,
            records_ok(b@, end as int, 0) == records_ok(b@, end as int, off as int),
        decreases end - off,
    {
        if off + NAME_OFFSET > b.len() {
            return false;
        }
        let reclen = read_le_u16(b, off + 16) as usize;
        if reclen == 0 {
            return false;
        }
        let mut k: usize = off + NAME_OFFSET;
        while k < b.len() && b[k] != 0
            invariant
                off + NAME_OFFSET <= k <= b@.len(),
                forall|j: int| off + NAME_OFFSET <= j < k ==> b@[j] != 0,
            decreases b@.len() - k,
        {
            k = k + 1;
        }
        if k >= b.len() {
            assert(!record_ok(b@, off as int));
            return false;
        }
        assert(record_ok(b@, off as int));
        if off + reclen > end {
            assert(records_ok(b@, end as int, (off + reclen) as int));
            return true;
        }
        off = off + reclen;
    }
    true
}

/// The directory entries in the first `end` bytes of `b`, in order.
pub fn parse_dirents(b: &Vec<u8>, end: usize) -> (ents: Vec<DEntry>)
    requires
        end <= b@.len(),
        b@.len() <= isize::MAX,
        records_ok(b@, end as int, 0),
    ensures
        ents@.map_values(|e: DEntry| e@) == entries_from(b@, end as int, 0),
{
    let mut ents: Vec<DEntry> = Vec::new();
    let mut off: usize = 0;
    while off < end
        invariant
            end <= b@.len(),
            b@.len() <= isize::MAX,
            off <= b@.len() || off >= end,
            off <= isize::MAX + 65536,
            records_ok(b@, end as int, off as int),
            ents@.map_values(|e: DEntry| e@) + entries_from(b@, end as int, off as int) == entries_from(
                b@,
                end as int,
                0,
            ),
        decreases (if off < end { end - off } else { 0 }),
    {
        assert(record_ok(b@, off as int));
        let d_ino = read_le_u64(b, off) as usize;
        let d_off = read_le_u64(b, off + 8) as i64;
        let d_reclen = read_le_u16(b, off + 16);
        let d_type = b[off + 18];
        let name_len = strlen_at(b, off + NAME_OFFSET);
        let copy_len = if name_len < 255 {
            name_len
        } else {
            255
        };
        let mut name: Vec<u8> = Vec::new();
        let mut i: usize = 0;
        while i < NAME_LEN
            invariant
                0 <= i <= NAME_LEN,
                copy_len <= name_len,
                b@.len() <= isize::MAX,
                off + NAME_OFFSET + name_len < b@.len(),
                name@.len() == i,
                forall|j: int| 0 <= j < i ==> #[trigger] name@[j] == (if j < copy_len {
                    b@[off + NAME_OFFSET + j]
                } else {
                    0u8
                }),
            decreases NAME_LEN - i,
        {
            if i < copy_len {
                name.push(b[off + NAME_OFFSET + i]);
            } else {
                name.push(0);
            }
            i = i + 1;
        }
        let ent = DEntry { d_ino, d_off, d_reclen, d_type, d_name: name };
        let ghost before = ents@.map_values(|e: DEntry| e@);
        assert(ent@ =~= entry_at(b@, off as int));
        ents.push(ent);
        assert(ents@.map_values(|e: DEntry| e@) =~= before.push(entry_at(b@, off as int)));
        let next = off + d_reclen as usize;
        assert(entries_from(b@, end as int, off as int) =~= seq![entry_at(b@, off as int)] + entries_from(
            b@,
            end as int,
            next as int,
        ));
        assert(before.push(entry_at(b@, off as int)) + entries_from(b@, end as int, next as int) =~= before
            + entries_from(b@, end as int, off as int));
        off = next;
    }
    assert(entries_from(b@, end as int, off as int) =~= Seq::<DEntryView>::empty());
    assert(ents@.map_values(|e: DEntry| e@) =~= ents@.map_values(|e: DEntry| e@) + Seq::<DEntryView>::empty());
    ents
}

} // verus!
