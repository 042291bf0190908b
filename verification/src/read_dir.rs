//! Directory entries as the kernel packs them into a buffer.

use vstd::prelude::*;
use vstd::slice::{slice_subrange, slice_to_vec};

use crate::words::{from_le16, from_le64, le16, le64, word16, word64};

verus! {

/// The size of the fixed part of an entry: inode number, offset, length and
/// type.
pub const DIRENT_HEADER: usize = 19;

/// A directory entry.
pub struct DirEntry {
    /// The inode number.
    pub ino: u64,
    /// Where the next entry is.
    pub offset: u64,
    /// The type of the file.
    pub type_: u32,
    /// The name, without padding.
    pub name: Vec<u8>,
}

/// Whether a name ends before its padding: a zero byte follows it.
pub open spec fn is_padded(b: Seq<u8>) -> bool {
    b.contains(0u8)
}

/// Whether `name` is the text before the first zero byte.
pub open spec fn is_stripped(b: Seq<u8>, name: Seq<u8>) -> bool {
    &&& name.len() < b.len()
    &&& name == b.take(name.len() as int)
    &&& b[name.len() as int] == 0
    &&& !name.contains(0u8)
}

/// The bytes before the first zero byte.
pub fn strip_padding(b: &[u8]) -> (name: &[u8])
    requires
        is_padded(b@),
    ensures
        is_stripped(b@, name@),
{
    let mut pos: usize = 0;
    while b[pos] != 0
        invariant
            is_padded(b@),
            pos < b@.len(),
            forall|i: int| 0 <= i < pos ==> b@[i] != 0,
        decreases b@.len() - pos,
    {
        proof {
            let k = choose|k: int| 0 <= k < b@.len() && b@[k] == 0u8;
            assert(k > pos);
        }
        pos += 1;
    }
    let name: &[u8] = slice_subrange(b, 0, pos);
    assert(name@ =~= b@.take(pos as int));
    name
}

impl DirEntry {
    /// The entry with the given fields; the name is padded.
    pub fn new(ino: u64, offset: u64, type_: u32, name: &[u8]) -> (entry: DirEntry)
        requires
            is_padded(name@),
        ensures
            entry.ino == ino,
            entry.offset == offset,
            entry.type_ == type_,
            is_stripped(name@, entry.name@),
    {
        let stripped: &[u8] = strip_padding(name);
        let copy: Vec<u8> = slice_to_vec(stripped);
        assert(copy@ =~= stripped@);
        DirEntry { ino, offset, type_, name: copy }
    }
}

/// The length that an entry at `pos` says it has.
pub open spec fn entry_len(buf: Seq<u8>, pos: int) -> int {
    word16(buf.subrange(pos + 16, pos + 18)) as int
}

/// The inode number, the offset and the type of the entry at `pos`.
pub open spec fn entry_fields(buf: Seq<u8>, pos: int) -> (u64, u64, u32) {
    (
        word64(buf.subrange(pos, pos + 8)),
        word64(buf.subrange(pos + 8, pos + 16)),
        buf[pos + 18] as u32,
    )
}

/// The name of the entry at `pos`, with its padding.
pub open spec fn entry_name(buf: Seq<u8>, pos: int) -> Seq<u8> {
    buf.subrange(pos + 19, pos + entry_len(buf, pos))
}

/// Whether a whole entry stands at `pos`, before `end`: the fixed part and a
/// name with its padding.
pub open spec fn entry_at(buf: Seq<u8>, pos: int, end: int) -> bool {
    &&& pos + DIRENT_HEADER <= end <= buf.len()
    &&& DIRENT_HEADER <= entry_len(buf, pos) <= end - pos
    &&& is_padded(buf.subrange(pos + DIRENT_HEADER, pos + entry_len(buf, pos)))
}

/// The entries that a directory read left in a buffer.
pub struct ReadDir {
    /// The buffer.
    pub buf: Vec<u8>,
    /// Where the next entry begins.
    pub current: usize,
    /// Where the last entry ends.
    pub end: usize,
}

/// The number of bytes that are left.
pub open spec fn bytes_left(current: usize, end: usize) -> int {
    if current < end {
        end - current
    } else {
        0
    }
}

impl ReadDir {
    /// The entries in the first `end` bytes of a buffer.
    pub fn new(buf: Vec<u8>, end: usize) -> (dir: ReadDir)
        ensures
            dir.buf == buf,
            dir.current == 0,
            dir.end == end,
    {
        ReadDir { buf, current: 0, end }
    }

    /// The number of bytes that are left.
    pub fn remaining(&self) -> (n: usize)
        ensures
            n == bytes_left(self.current, self.end),
    {
        self.end.saturating_sub(self.current)
    }

    /// The next entry, if any is left.
    pub fn next(&mut self) -> (entry: Option<DirEntry>)
        requires
            old(self).current <= old(self).end <= old(self).buf@.len(),
            old(self).current < old(self).end ==> entry_at(
                old(self).buf@,
                old(self).current as int,
                old(self).end as int,
            ),
        ensures
            final(self).buf == old(self).buf,
            final(self).end == old(self).end,
            final(self).current <= final(self).end,
            ({
                let buf = old(self).buf@;
                let pos = old(self).current as int;
                let len = entry_len(buf, pos);
                if pos < old(self).end {
                    &&& entry matches Some(e) && (e.ino, e.offset, e.type_) == entry_fields(
                        buf,
                        pos,
                    ) && is_stripped(entry_name(buf, pos), e.name@)
                    &&& final(self).current == pos + len
                } else {
                    entry is None && final(self).current == pos
                }
            }),
    {
        if self.current == self.end {
            return None;
        }
        let pos: usize = self.current;
        let ino: u64 = from_le64(slice_subrange(self.buf.as_slice(), pos, pos + 8));
        let offset: u64 = from_le64(
            slice_subrange(self.buf.as_slice(), pos + 8, pos + 16),
        );
        let reclen: u16 = from_le16(
            slice_subrange(self.buf.as_slice(), pos + 16, pos + 18),
        );
        let type_: u32 = self.buf[pos + 18] as u32;
        let name: &[u8] = strip_padding(
            slice_subrange(self.buf.as_slice(), pos + DIRENT_HEADER, pos + reclen as usize),
        );
        let entry: DirEntry = DirEntry { ino, offset, type_, name: slice_to_vec(name) };
        self.current = pos + reclen as usize;
        Some(entry)
    }
}

/// The text before the first zero byte is unique.
pub proof fn law_stripped_is_unique(b: Seq<u8>, a: Seq<u8>, c: Seq<u8>)
    requires
        is_stripped(b, a),
        is_stripped(b, c),
    ensures
        a == c,
{
    if a.len() < c.len() {
        assert(c[a.len() as int] == 0u8);
    }
    if c.len() < a.len() {
        assert(a[c.len() as int] == 0u8);
    }
    assert(a =~= c);
}

/// Whether the bytes from `pos` to `end` are whole entries, one after the other.
pub open spec fn well_packed(buf: Seq<u8>, pos: int, end: int) -> bool
    decreases end - pos,
{
    pos == end || (entry_at(buf, pos, end) && well_packed(buf, pos + entry_len(buf, pos), end))
}

/// A buffer of whole entries is read to its end: as long as something remains, an
/// entry stands at the current place, and behind it the buffer is again one of
/// whole entries.
pub proof fn law_entries_are_read_to_the_end(buf: Seq<u8>, pos: int, end: int)
    requires
        well_packed(buf, pos, end),
        pos < end,
    ensures
        entry_at(buf, pos, end),
        pos < pos + entry_len(buf, pos) <= end,
        well_packed(buf, pos + entry_len(buf, pos), end),
{
}

/// An entry as the kernel packs it: the inode number, the offset, the length of the entry,
/// the type, and the name with at least one zero byte behind it.
pub open spec fn packed_entry(
    ino: u64,
    offset: u64,
    type_: u8,
    name: Seq<u8>,
    padding: nat,
) -> Seq<u8> {
    le64(ino) + le64(offset) + le16((19 + name.len() + padding) as u16) + seq![type_] + (name
        + Seq::new(padding, |i: int| 0u8))
}

/// What the kernel packs is what is read: an entry in a buffer, whatever stands before and
/// behind it, is a whole one with its inode number, its offset, its type and its name
/// without padding, and the next one begins right behind it.
pub proof fn law_packed_entry_is_read(
    before: Seq<u8>,
    ino: u64,
    offset: u64,
    type_: u8,
    name: Seq<u8>,
    padding: nat,
    behind: Seq<u8>,
)
    requires
        padding >= 1,
        19 + name.len() + padding <= 0xffff,
        !name.contains(0u8),
    ensures
        ({
            let entry = packed_entry(ino, offset, type_, name, padding);
            let buf = before + entry + behind;
            let pos = before.len() as int;
            &&& entry_len(buf, pos) == entry.len()
            &&& entry_at(buf, pos, pos + entry.len())
            &&& entry_fields(buf, pos) == (ino, offset, type_ as u32)
            &&& is_stripped(entry_name(buf, pos), name)
        }),
{
    let entry = packed_entry(ino, offset, type_, name, padding);
    let buf = before + entry + behind;
    let pos = before.len() as int;
    let len: u16 = (19 + name.len() + padding) as u16;
    let padded = name + Seq::new(padding, |i: int| 0u8);
    crate::words::law_word64_round_trip(ino);
    crate::words::law_word64_round_trip(offset);
    crate::words::law_word16_round_trip(len);
    lemma_five_parts(
        before,
        le64(ino),
        le64(offset),
        le16(len),
        seq![type_],
        padded,
        behind,
    );
    assert(entry.len() == 19 + padded.len());
    assert(entry_name(buf, pos) =~= padded);
    assert(padded[name.len() as int] == 0u8);
    assert(padded.take(name.len() as int) =~= name);
}

proof fn lemma_five_parts(
    before: Seq<u8>,
    a: Seq<u8>,
    b: Seq<u8>,
    c: Seq<u8>,
    d: Seq<u8>,
    e: Seq<u8>,
    behind: Seq<u8>,
)
    requires
        a.len() == 8,
        b.len() == 8,
        c.len() == 2,
        d.len() == 1,
    ensures
        ({
            let all = before + (a + b + c + d + e) + behind;
            let pos = before.len() as int;
            &&& all.subrange(pos, pos + 8) == a
            &&& all.subrange(pos + 8, pos + 16) == b
            &&& all.subrange(pos + 16, pos + 18) == c
            &&& all[pos + 18] == d[0]
            &&& all.subrange(pos + 19, pos + 19 + e.len()) == e
            &&& all.len() == pos + 19 + e.len() + behind.len()
        }),
{
    let all = before + (a + b + c + d + e) + behind;
    let pos = before.len() as int;
    assert(all.subrange(pos, pos + 8) =~= a);
    assert(all.subrange(pos + 8, pos + 16) =~= b);
    assert(all.subrange(pos + 16, pos + 18) =~= c);
    assert(all.subrange(pos + 19, pos + 19 + e.len()) =~= e);
}

/// What is left is what lies between the next entry and the end, and each entry that is
/// read takes its length off.
pub proof fn law_bytes_left(current: usize, end: usize, len: usize)
    requires
        current + len <= end,
    ensures
        current + bytes_left(current, end) == end,
        bytes_left((current + len) as usize, end) == bytes_left(current, end) - len,
        bytes_left(end, current) == 0,
{
}

} // verus!
