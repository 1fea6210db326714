use vstd::prelude::*;

use crate::cursor::ByteCursor;
use crate::encoding::{be16, be32};
use crate::error::FontError;

verus! {

/// One entry of the sfnt table directory: a named byte range of the font
/// file. The tag holds the entry's four tag characters, one byte per
/// character, packed big-endian into a 32-bit code.
#[derive(Clone, Copy, Debug, PartialEq, Eq, Structural)]
pub struct FontTable {
    pub tag: u32,
    pub checksum: u32,
    pub offset: u32,
    pub length: u32,
}

impl FontTable {
    pub fn new(tag: u32, checksum: u32, offset: u32, length: u32) -> (t: FontTable)
        ensures
            t == (FontTable { tag, checksum, offset, length }),
    {
        FontTable { tag, checksum, offset, length }
    }
}

/// Pack four tag characters, given as bytes, into a 32-bit tag code.
pub open spec fn spec_tag_code(b0: u8, b1: u8, b2: u8, b3: u8) -> int {
    b0 * 0x1000000 + b1 * 0x10000 + b2 * 0x100 + b3
}

/// Pack four tag characters, given as bytes, into a 32-bit tag code.
pub fn tag_code(b0: u8, b1: u8, b2: u8, b3: u8) -> (t: u32)
    ensures
        t == spec_tag_code(b0, b1, b2, b3),
{
    (b0 as u32) * 0x1000000 + (b1 as u32) * 0x10000 + (b2 as u32) * 0x100 + (b3 as u32)
}

/// The number of table records the 12-byte offset table announces.
pub open spec fn spec_num_tables(b: Seq<u8>) -> int {
    be16(b, 4)
}

/// How many bytes the offset table and the announced records cover.
pub open spec fn spec_directory_size(b: Seq<u8>) -> int {
    12 + 16 * spec_num_tables(b)
}

/// Whether the source holds the whole directory it announces.
pub open spec fn directory_complete(b: Seq<u8>) -> bool {
    spec_directory_size(b) <= b.len()
}

/// The table record spelled by the 16 bytes of `b` starting at index `i`.
pub open spec fn spec_record(b: Seq<u8>, i: int) -> FontTable {
    FontTable {
        tag: be32(b, i) as u32,
        checksum: be32(b, i + 4) as u32,
        offset: be32(b, i + 8) as u32,
        length: be32(b, i + 12) as u32,
    }
}

/// All table records of `b`, in file order.
pub open spec fn spec_entries(b: Seq<u8>) -> Seq<FontTable> {
    Seq::new(spec_num_tables(b) as nat, |k: int| spec_record(b, 12 + 16 * k))
}

/// The record a tag lookup selects: the last record bearing the tag, so a
/// later duplicate overwrites an earlier one, or nothing when no record
/// bears it.
pub open spec fn spec_lookup(entries: Seq<FontTable>, tag: u32) -> Option<FontTable>
    decreases entries.len(),
{
    if entries.len() == 0 {
        None
    } else if entries.last().tag == tag {
        Some(entries.last())
    } else {
        spec_lookup(entries.drop_last(), tag)
    }
}

/// A lookup succeeds exactly when some record bears the tag sought, and what
/// it returns is one of the directory's own records, bearing that tag.
pub proof fn lemma_lookup_properties(entries: Seq<FontTable>, tag: u32)
    ensures
        (spec_lookup(entries, tag) is Some) <==> (exists|k: int|
            0 <= k < entries.len() && entries[k].tag == tag),
        spec_lookup(entries, tag) matches Some(t) ==> t.tag == tag && (exists|k: int|
            0 <= k < entries.len() && entries[k] == t),
    decreases entries.len(),
{
    if entries.len() > 0 {
        if entries.last().tag == tag {
            assert(entries[entries.len() - 1].tag == tag);
        } else {
            lemma_lookup_properties(entries.drop_last(), tag);
            let dl = entries.drop_last();
            if spec_lookup(entries, tag) is Some {
                let k = choose|k: int| 0 <= k < dl.len() && dl[k].tag == tag;
                assert(entries[k].tag == tag);
                let t = spec_lookup(dl, tag).unwrap();
                let j = choose|j: int| 0 <= j < dl.len() && dl[j] == t;
                assert(entries[j] == t);
            }
            if exists|k: int| 0 <= k < entries.len() && entries[k].tag == tag {
                let k = choose|k: int| 0 <= k < entries.len() && entries[k].tag == tag;
                assert(k < entries.len() - 1 && dl[k].tag == tag);
            }
        }
    }
}

/// A table resolved by tag is spelled by the file bytes themselves: its
/// record stands in one of the 16-byte record slots after the header, so
/// seeking to fields of that slot reads back exactly the tag, checksum,
/// offset and length the lookup returned.
pub proof fn lemma_resolved_table_round_trip(b: Seq<u8>, tag: u32)
    requires
        spec_lookup(spec_entries(b), tag) is Some,
    ensures
        exists|k: int|
            0 <= k < spec_num_tables(b) && spec_lookup(spec_entries(b), tag).unwrap() == (
            #[trigger] spec_record(b, 12 + 16 * k)),
{
    lemma_lookup_properties(spec_entries(b), tag);
    let t = spec_lookup(spec_entries(b), tag).unwrap();
    let k = choose|k: int| 0 <= k < spec_entries(b).len() && spec_entries(b)[k] == t;
    assert(spec_entries(b)[k] == spec_record(b, 12 + 16 * k));
}

/// The sfnt table directory: the index of named byte ranges within a font
/// file, keyed by 4-character tag.
#[derive(Debug)]
pub struct TableDirectory {
    pub sfnt_version: u32,
    pub num_tables: u16,
    pub entries: Vec<FontTable>,
}

impl View for TableDirectory {
    type V = Seq<FontTable>;

    open spec fn view(&self) -> Seq<FontTable> {
        self.entries@
    }
}

impl TableDirectory {
    /// The announced record count and the recovered entries agree.
    pub open spec fn wf(self) -> bool {
        self.num_tables == self@.len()
    }

    /// How many records the directory recovered.
    pub fn entry_count(&self) -> (n: usize)
        ensures
            n == self@.len(),
    {
        self.entries.len()
    }

    /// Read the 12-byte offset table and the announced table records from
    /// the start of the source.
    ///
    /// Succeeds exactly when the source holds the whole announced
    /// directory; a source that ends before the records do is refused as
    /// truncated. Recovers exactly as many entries as the offset table
    /// announces, in file order.
    #[verifier::loop_isolation(false)]
    pub fn parse(cursor: &mut ByteCursor) -> (r: Result<TableDirectory, FontError>)
        requires
            old(cursor).wf(),
            old(cursor).position() == 0,
        ensures
            final(cursor).wf(),
            final(cursor).bytes() == old(cursor).bytes(),
            directory_complete(old(cursor).bytes()) ==> (r matches Ok(d) && {
                let b = old(cursor).bytes();
                &&& d.wf()
                &&& d.sfnt_version == be32(b, 0)
                &&& d.num_tables == spec_num_tables(b)
                &&& d@ == spec_entries(b)
                &&& final(cursor).position() == spec_directory_size(b)
            }),
            !directory_complete(old(cursor).bytes()) ==> r == Err::<TableDirectory, FontError>(
                FontError::TruncatedInput,
            ),
    {
        let ghost b = old(cursor).bytes();
        let sfnt_version = match cursor.read_u32() {
            Ok(v) => v,
            Err(e) => return Err(e),
        };
        let num_tables = match cursor.read_u16() {
            Ok(v) => v,
            Err(e) => return Err(e),
        };
        let _search_range = match cursor.read_u16() {
            Ok(v) => v,
            Err(e) => return Err(e),
        };
        let _entry_selector = match cursor.read_u16() {
            Ok(v) => v,
            Err(e) => return Err(e),
        };
        let _range_shift = match cursor.read_u16() {
            Ok(v) => v,
            Err(e) => return Err(e),
        };
        let mut entries: Vec<FontTable> = Vec::new();
        let mut i: u16 = 0;
        while i < num_tables
            invariant
                i <= num_tables,
                cursor.wf(),
                cursor.bytes() == b,
                cursor.position() == 12 + 16 * i,
                entries@.len() == i,
                forall|k: int| 0 <= k < i ==> entries@[k] == spec_record(b, 12 + 16 * k),
            decreases num_tables - i,
        {
            let tag = match cursor.read_tag() {
                Ok(v) => v,
                Err(e) => return Err(e),
            };
            let checksum = match cursor.read_u32() {
                Ok(v) => v,
                Err(e) => return Err(e),
            };
            let offset = match cursor.read_u32() {
                Ok(v) => v,
                Err(e) => return Err(e),
            };
            let length = match cursor.read_u32() {
                Ok(v) => v,
                Err(e) => return Err(e),
            };
            entries.push(FontTable::new(tag, checksum, offset, length));
            i = i + 1;
        }
        proof {
            assert(entries@ =~= spec_entries(b));
        }
        Ok(TableDirectory { sfnt_version, num_tables, entries })
    }

    /// Look a table up by tag. A missing tag is an error, never an
    /// unchecked access; when records share a tag the last one wins.
    pub fn find(&self, tag: u32) -> (r: Result<FontTable, FontError>)
        ensures
            r matches Ok(t) ==> spec_lookup(self@, tag) == Some(t) && t.tag == tag && (exists|
                k: int,
            | 0 <= k < self@.len() && self@[k] == t),
            r matches Err(e) ==> e == FontError::TableNotFound && spec_lookup(self@, tag) is None,
            (r is Err) <==> (forall|k: int| 0 <= k < self@.len() ==> self@[k].tag != tag),
    {
        let n = self.entries.len();
        let mut i = n;
        proof {
            assert(self.entries@.take(n as int) =~= self.entries@);
        }
        while i > 0
            invariant
                i <= n,
                n == self.entries@.len(),
                spec_lookup(self.entries@, tag) == spec_lookup(
                    self.entries@.take(i as int),
                    tag,
                ),
                forall|k: int| i <= k < n ==> self.entries@[k].tag != tag,
            decreases i,
        {
            i = i - 1;
            if self.entries[i].tag == tag {
                proof {
                    let prefix = self.entries@.take(i as int + 1);
                    assert(prefix.last() == self.entries@[i as int]);
                }
                return Ok(self.entries[i]);
            }
            proof {
                let prefix = self.entries@.take(i as int + 1);
                assert(prefix.last() == self.entries@[i as int]);
                assert(prefix.drop_last() =~= self.entries@.take(i as int));
            }
        }
        proof {
            assert(self.entries@.take(0) =~= Seq::<FontTable>::empty());
        }
        Err(FontError::TableNotFound)
    }
}

} // verus!
