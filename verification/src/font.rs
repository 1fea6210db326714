use vstd::prelude::*;

use crate::cursor::ByteCursor;
use crate::directory::{
    directory_complete, spec_entries, spec_lookup, spec_num_tables, TableDirectory,
};
use crate::encoding::{be16, be32};
use crate::error::FontError;
use crate::glyph::{glyphs_complete, spec_glyph_pos, spec_parse_glyph, GlyphOutline, GLYF_TAG};
use crate::glyph::read_glyph_outlines;
use crate::maxp::{MaximumProfile, MAXP_TAG};

verus! {

/// Everything one pass over a font file recovers: the table directory, the
/// maximum profile, and one outline record per glyph.
#[derive(Debug)]
pub struct FontInfo {
    pub directory: TableDirectory,
    pub profile: MaximumProfile,
    pub glyphs: Vec<GlyphOutline>,
}

/// The `maxp` record a parse of `b` resolves.
pub open spec fn spec_maxp_entry(b: Seq<u8>) -> Option<crate::directory::FontTable> {
    spec_lookup(spec_entries(b), MAXP_TAG)
}

/// The `glyf` record a parse of `b` resolves.
pub open spec fn spec_glyf_entry(b: Seq<u8>) -> Option<crate::directory::FontTable> {
    spec_lookup(spec_entries(b), GLYF_TAG)
}

/// The glyph count the `maxp` table of `b` announces.
pub open spec fn spec_num_glyphs(b: Seq<u8>) -> int {
    match spec_maxp_entry(b) {
        Some(m) => be16(b, m.offset + 4),
        None => 0,
    }
}

/// The first failure a full parse of `b` meets, in parse order: the
/// directory must be whole, `maxp` must be present, reachable and whole,
/// then `glyf` must be present, reachable and hold every announced glyph.
pub open spec fn spec_font_error(b: Seq<u8>) -> Option<FontError> {
    if !directory_complete(b) {
        Some(FontError::TruncatedInput)
    } else {
        match spec_maxp_entry(b) {
            None => Some(FontError::TableNotFound),
            Some(m) => if m.offset > b.len() {
                Some(FontError::InvalidOffset)
            } else if m.offset + 6 > b.len() {
                Some(FontError::TruncatedInput)
            } else {
                match spec_glyf_entry(b) {
                    None => Some(FontError::TableNotFound),
                    Some(g) => if g.offset > b.len() {
                        Some(FontError::InvalidOffset)
                    } else if !glyphs_complete(b, g.offset as int, spec_num_glyphs(b)) {
                        Some(FontError::TruncatedInput)
                    } else {
                        None
                    },
                }
            },
        }
    }
}

/// One full forward pass over an in-memory font file: read the table
/// directory, resolve and read `maxp`, then resolve `glyf` and read one
/// outline record per announced glyph.
///
/// Succeeds exactly when no stage fails, and then every recovered value is
/// the one the bytes spell; otherwise returns the first failure, in parse
/// order, as [`spec_font_error`] names it.
pub fn parse_font(data: Vec<u8>) -> (r: Result<FontInfo, FontError>)
    ensures
        ({
            let b = data@;
            &&& (r is Ok <==> spec_font_error(b) is None)
            &&& (r matches Err(e) ==> Some(e) == spec_font_error(b))
            &&& (r matches Ok(f) ==> {
                let m = spec_maxp_entry(b).unwrap();
                let g = spec_glyf_entry(b).unwrap();
                &&& f.directory.wf()
                &&& f.directory.sfnt_version == be32(b, 0)
                &&& f.directory.num_tables == spec_num_tables(b)
                &&& f.directory@ == spec_entries(b)
                &&& f.profile.major_version == be16(b, m.offset as int)
                &&& f.profile.minor_version == be16(b, m.offset + 2)
                &&& f.profile.num_glyphs == spec_num_glyphs(b)
                &&& f.glyphs@.len() == spec_num_glyphs(b)
                &&& (forall|k: int|
                    0 <= k < f.glyphs@.len() ==> (#[trigger] f.glyphs@[k]).model()
                        == spec_parse_glyph(b, spec_glyph_pos(b, g.offset as int, k)))
            })
        }),
{
    let ghost b = data@;
    let mut cursor = ByteCursor::new(data);
    let directory = match TableDirectory::parse(&mut cursor) {
        Ok(d) => d,
        Err(e) => return Err(e),
    };
    let profile = match MaximumProfile::read(&directory, &mut cursor) {
        Ok(p) => p,
        Err(e) => return Err(e),
    };
    let glyphs = match read_glyph_outlines(&directory, &mut cursor, profile.num_glyphs) {
        Ok(g) => g,
        Err(e) => return Err(e),
    };
    Ok(FontInfo { directory, profile, glyphs })
}

} // verus!
