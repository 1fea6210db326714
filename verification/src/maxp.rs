use vstd::prelude::*;

use crate::cursor::ByteCursor;
use crate::directory::{spec_lookup, TableDirectory};
use crate::encoding::be16;
use crate::error::FontError;

verus! {

/// The tag code of the maximum-profile table, the four characters `maxp`.
pub const MAXP_TAG: u32 = 0x6d617870;

/// The maximum profile: the font's glyph count and format version.
///
/// The version is a decimal composed from the two 16-bit fields as
/// major + minor / 10; see [`MaximumProfile::version_tenths`].
#[derive(Debug)]
pub struct MaximumProfile {
    pub major_version: u16,
    pub minor_version: u16,
    pub num_glyphs: u16,
}

impl MaximumProfile {
    /// Ten times the composed decimal version major + minor / 10.
    ///
    /// The decimal composition is a deliberate simplification of the
    /// table's fixed-point version field and is only meaningful for the
    /// minor versions below 10 seen in practice.
    pub fn version_tenths(&self) -> (v: u32)
        ensures
            v == self.major_version * 10 + self.minor_version,
    {
        (self.major_version as u32) * 10 + (self.minor_version as u32)
    }

    /// Locate the `maxp` entry in the directory, seek to its recorded
    /// offset and read the version fields and the glyph count.
    ///
    /// An absent `maxp` tag is `TableNotFound`, an offset past the end of
    /// the source is `InvalidOffset`, and a source that ends within the six
    /// bytes of the table is `TruncatedInput`; each exactly in that case.
    pub fn read(dir: &TableDirectory, cursor: &mut ByteCursor) -> (r: Result<
        MaximumProfile,
        FontError,
    >)
        requires
            old(cursor).wf(),
        ensures
            final(cursor).wf(),
            final(cursor).bytes() == old(cursor).bytes(),
            ({
                let b = old(cursor).bytes();
                match spec_lookup(dir@, MAXP_TAG) {
                    Some(t) => {
                        &&& (r matches Ok(p) ==> t.offset + 6 <= b.len() && p.major_version
                            == be16(b, t.offset as int) && p.minor_version == be16(
                            b,
                            t.offset + 2,
                        ) && p.num_glyphs == be16(b, t.offset + 4) && final(cursor).position()
                            == t.offset + 6)
                        &&& (r matches Err(e) ==> ((e == FontError::InvalidOffset && t.offset
                            > b.len()) || (e == FontError::TruncatedInput && t.offset <= b.len()
                            && t.offset + 6 > b.len())))
                        &&& (t.offset + 6 <= b.len() ==> r is Ok)
                    },
                    None => r == Err::<MaximumProfile, FontError>(FontError::TableNotFound),
                }
            }),
    {
        let t = match dir.find(MAXP_TAG) {
            Ok(t) => t,
            Err(e) => return Err(e),
        };
        match cursor.seek(t.offset as usize) {
            Ok(_) => (),
            Err(e) => return Err(e),
        };
        let major_version = match cursor.read_u16() {
            Ok(v) => v,
            Err(e) => return Err(e),
        };
        let minor_version = match cursor.read_u16() {
            Ok(v) => v,
            Err(e) => return Err(e),
        };
        let num_glyphs = match cursor.read_u16() {
            Ok(v) => v,
            Err(e) => return Err(e),
        };
        Ok(MaximumProfile { major_version, minor_version, num_glyphs })
    }
}

} // verus!
