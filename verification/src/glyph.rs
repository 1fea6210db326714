use vstd::prelude::*;

use crate::cursor::ByteCursor;
use crate::directory::{spec_lookup, TableDirectory};
use crate::encoding::{be16, sbe16};
use crate::error::FontError;
use crate::flag_bit::{spec_is_bit_active, FlagBits};

verus! {

/// The tag code of the glyph-outline table, the four characters `glyf`.
pub const GLYF_TAG: u32 = 0x676c7966;

/// The decoded outline data of a simple glyph: the contour end-point list,
/// the instruction bytes, the flags byte with its repeat count, and one
/// decoded coordinate pair.
#[derive(Debug)]
pub struct SimpleGlyph {
    pub contour_end_points: Vec<i16>,
    pub instruction_length: u16,
    pub instructions: Vec<u8>,
    pub flags: u8,
    pub repeat_count: u8,
    pub x_coordinate: u16,
    pub y_coordinate: u16,
}

/// Placeholder for a composite glyph: composite decoding is an extension
/// point, not implemented, so every field is zero.
#[derive(Debug)]
pub struct CompositeGlyph {
    pub flags: u16,
    pub glyph_index: u16,
    pub argument1: u16,
    pub argument2: u16,
}

/// The two kinds of glyph body: decoded simple outlines, or the composite
/// placeholder.
#[derive(Debug)]
pub enum GlyphBody {
    Simple(SimpleGlyph),
    Composite(CompositeGlyph),
}

/// One glyph record: the contour count (negative means composite), the
/// bounding box, and the body.
#[derive(Debug)]
pub struct GlyphOutline {
    pub contour_count: i16,
    pub x_min: i16,
    pub y_min: i16,
    pub x_max: i16,
    pub y_max: i16,
    pub body: GlyphBody,
}

/// Mathematical image of a glyph body, over unbounded integers and
/// sequences.
#[verifier::ext_equal]
#[allow(inconsistent_fields)]
pub enum GlyphBodyModel {
    Simple {
        contour_end_points: Seq<int>,
        instruction_length: int,
        instructions: Seq<u8>,
        flags: u8,
        repeat_count: int,
        x_coordinate: int,
        y_coordinate: int,
    },
    Composite {
        flags: int,
        glyph_index: int,
        argument1: int,
        argument2: int,
    },
}

/// Mathematical image of a glyph record.
#[verifier::ext_equal]
pub struct GlyphModel {
    pub contour_count: int,
    pub x_min: int,
    pub y_min: int,
    pub x_max: int,
    pub y_max: int,
    pub body: GlyphBodyModel,
}

impl SimpleGlyph {
    pub open spec fn model(self) -> GlyphBodyModel {
        GlyphBodyModel::Simple {
            contour_end_points: self.contour_end_points@.map(|k: int, v: i16| v as int),
            instruction_length: self.instruction_length as int,
            instructions: self.instructions@,
            flags: self.flags,
            repeat_count: self.repeat_count as int,
            x_coordinate: self.x_coordinate as int,
            y_coordinate: self.y_coordinate as int,
        }
    }
}

impl CompositeGlyph {
    pub open spec fn model(self) -> GlyphBodyModel {
        GlyphBodyModel::Composite {
            flags: self.flags as int,
            glyph_index: self.glyph_index as int,
            argument1: self.argument1 as int,
            argument2: self.argument2 as int,
        }
    }
}

impl GlyphBody {
    pub open spec fn model(self) -> GlyphBodyModel {
        match self {
            GlyphBody::Simple(s) => s.model(),
            GlyphBody::Composite(c) => c.model(),
        }
    }
}

/// The glyph's contour count: negative marks a composite glyph, a
/// non-negative count a simple glyph with that many contours.
pub open spec fn spec_contour_count(b: Seq<u8>, p: int) -> int {
    sbe16(b, p)
}

/// Where the contour end-point list of a simple glyph at `p` ends.
pub open spec fn spec_endpoints_end(b: Seq<u8>, p: int) -> int {
    p + 10 + 2 * spec_contour_count(b, p)
}

/// The instruction count of a simple glyph at `p`.
pub open spec fn spec_instruction_length(b: Seq<u8>, p: int) -> int {
    be16(b, spec_endpoints_end(b, p))
}

/// Where the flags byte of a simple glyph at `p` stands.
pub open spec fn spec_flags_offset(b: Seq<u8>, p: int) -> int {
    spec_endpoints_end(b, p) + 2 + spec_instruction_length(b, p)
}

/// The flags byte of a simple glyph at `p`.
pub open spec fn spec_glyph_flags(b: Seq<u8>, p: int) -> u8 {
    b[spec_flags_offset(b, p)]
}

/// Where the x coordinate of a simple glyph at `p` stands: right after the
/// flags byte, or one later when flag bit 3 announces a repeat-count byte.
pub open spec fn spec_x_offset(b: Seq<u8>, p: int) -> int {
    spec_flags_offset(b, p) + 1 + (if spec_is_bit_active(spec_glyph_flags(b, p), 3) {
        1int
    } else {
        0int
    })
}

/// Where the y coordinate of a simple glyph at `p` stands: the x coordinate
/// takes one byte when flag bit 1 is set, else two.
pub open spec fn spec_y_offset(b: Seq<u8>, p: int) -> int {
    spec_x_offset(b, p) + (if spec_is_bit_active(spec_glyph_flags(b, p), 1) {
        1int
    } else {
        2int
    })
}

/// Where the glyph record at `p` ends: a composite glyph consumes its
/// 10-byte header only, a simple glyph everything through its y coordinate,
/// which takes one byte when flag bit 2 is set, else two.
pub open spec fn spec_glyph_end(b: Seq<u8>, p: int) -> int {
    if spec_contour_count(b, p) < 0 {
        p + 10
    } else {
        spec_y_offset(b, p) + (if spec_is_bit_active(spec_glyph_flags(b, p), 2) {
            1int
        } else {
            2int
        })
    }
}

/// Whether the source holds the whole glyph record at `p`.
pub open spec fn glyph_complete(b: Seq<u8>, p: int) -> bool {
    0 <= p && spec_glyph_end(b, p) <= b.len()
}

/// The body of the simple glyph at `p`, as spelled by the bytes.
pub open spec fn spec_simple_body(b: Seq<u8>, p: int) -> GlyphBodyModel {
    GlyphBodyModel::Simple {
        contour_end_points: Seq::new(
            spec_contour_count(b, p) as nat,
            |k: int| sbe16(b, p + 10 + 2 * k),
        ),
        instruction_length: spec_instruction_length(b, p),
        instructions: b.subrange(spec_endpoints_end(b, p) + 2, spec_flags_offset(b, p)),
        flags: spec_glyph_flags(b, p),
        repeat_count: if spec_is_bit_active(spec_glyph_flags(b, p), 3) {
            b[spec_flags_offset(b, p) + 1] as int
        } else {
            1
        },
        x_coordinate: if spec_is_bit_active(spec_glyph_flags(b, p), 1) {
            b[spec_x_offset(b, p)] as int
        } else {
            be16(b, spec_x_offset(b, p))
        },
        y_coordinate: if spec_is_bit_active(spec_glyph_flags(b, p), 2) {
            b[spec_y_offset(b, p)] as int
        } else {
            be16(b, spec_y_offset(b, p))
        },
    }
}

/// The glyph record at `p`, as spelled by the bytes: header, then either
/// the decoded simple body or the zero-valued composite placeholder.
pub open spec fn spec_parse_glyph(b: Seq<u8>, p: int) -> GlyphModel {
    GlyphModel {
        contour_count: spec_contour_count(b, p),
        x_min: sbe16(b, p + 2),
        y_min: sbe16(b, p + 4),
        x_max: sbe16(b, p + 6),
        y_max: sbe16(b, p + 8),
        body: if spec_contour_count(b, p) < 0 {
            GlyphBodyModel::Composite { flags: 0, glyph_index: 0, argument1: 0, argument2: 0 }
        } else {
            spec_simple_body(b, p)
        },
    }
}

/// How far into a simple glyph record each stage stands from its start.
proof fn lemma_simple_glyph_layout(b: Seq<u8>, p: int)
    requires
        spec_contour_count(b, p) >= 0,
    ensures
        spec_endpoints_end(b, p) >= p + 10,
        spec_flags_offset(b, p) >= spec_endpoints_end(b, p) + 2,
        spec_x_offset(b, p) >= spec_flags_offset(b, p) + 1,
        spec_y_offset(b, p) >= spec_x_offset(b, p) + 1,
        spec_glyph_end(b, p) >= spec_y_offset(b, p) + 1,
        spec_glyph_end(b, p) >= spec_endpoints_end(b, p) + 5,
{
}

impl GlyphOutline {
    pub open spec fn model(self) -> GlyphModel {
        GlyphModel {
            contour_count: self.contour_count as int,
            x_min: self.x_min as int,
            y_min: self.y_min as int,
            x_max: self.x_max as int,
            y_max: self.y_max as int,
            body: self.body.model(),
        }
    }

    /// The simple-glyph body, or `UnsupportedGlyphFormat` for a composite
    /// glyph, which this reader classifies but does not decode.
    pub fn simple(&self) -> (r: Result<&SimpleGlyph, FontError>)
        ensures
            self.body matches GlyphBody::Simple(s) ==> (r matches Ok(rs) && *rs == s),
            self.body is Composite ==> r == Err::<&SimpleGlyph, FontError>(
                FontError::UnsupportedGlyphFormat,
            ),
    {
        match &self.body {
            GlyphBody::Simple(s) => Ok(s),
            GlyphBody::Composite(_) => Err(FontError::UnsupportedGlyphFormat),
        }
    }

    /// Read one glyph record at the cursor's position.
    ///
    /// Succeeds exactly when the source holds the whole record, leaving the
    /// cursor just past it; a record cut short at any field is refused as
    /// truncated. A negative contour count is classified as composite and
    /// yields the placeholder body: no simple-glyph decoding is attempted.
    #[verifier::loop_isolation(false)]
    #[verifier::rlimit(100)]
    pub fn parse(cursor: &mut ByteCursor) -> (r: Result<GlyphOutline, FontError>)
        requires
            old(cursor).wf(),
        ensures
            final(cursor).wf(),
            final(cursor).bytes() == old(cursor).bytes(),
            ({
                let b = old(cursor).bytes();
                let p = old(cursor).position();
                &&& glyph_complete(b, p) ==> (r matches Ok(g) && g.model() == spec_parse_glyph(
                    b,
                    p,
                ) && final(cursor).position() == spec_glyph_end(b, p))
                &&& !glyph_complete(b, p) ==> r == Err::<GlyphOutline, FontError>(
                    FontError::TruncatedInput,
                )
            }),
    {
        let ghost b = old(cursor).bytes();
        let ghost p = old(cursor).position();
        proof {
            if spec_contour_count(b, p) >= 0 {
                lemma_simple_glyph_layout(b, p);
            }
        }
        let contour_count = match cursor.read_i16() {
            Ok(v) => v,
            Err(e) => return Err(e),
        };
        let x_min = match cursor.read_i16() {
            Ok(v) => v,
            Err(e) => return Err(e),
        };
        let y_min = match cursor.read_i16() {
            Ok(v) => v,
            Err(e) => return Err(e),
        };
        let x_max = match cursor.read_i16() {
            Ok(v) => v,
            Err(e) => return Err(e),
        };
        let y_max = match cursor.read_i16() {
            Ok(v) => v,
            Err(e) => return Err(e),
        };
        if contour_count < 0 {
            return Ok(
                GlyphOutline {
                    contour_count,
                    x_min,
                    y_min,
                    x_max,
                    y_max,
                    body: GlyphBody::Composite(
                        CompositeGlyph { flags: 0, glyph_index: 0, argument1: 0, argument2: 0 },
                    ),
                },
            );
        }
        let n = contour_count as usize;
        let mut contour_end_points: Vec<i16> = Vec::new();
        let mut i: usize = 0;
        while i < n
            invariant
                i <= n,
                cursor.wf(),
                cursor.bytes() == b,
                cursor.position() == p + 10 + 2 * i,
                contour_end_points@.len() == i,
                forall|k: int|
                    0 <= k < i ==> contour_end_points@[k] as int == sbe16(b, p + 10 + 2 * k),
            decreases n - i,
        {
            let v = match cursor.read_i16() {
                Ok(v) => v,
                Err(e) => return Err(e),
            };
            contour_end_points.push(v);
            i = i + 1;
        }
        let instruction_length = match cursor.read_u16() {
            Ok(v) => v,
            Err(e) => return Err(e),
        };
        let mut instructions: Vec<u8> = Vec::new();
        let mut j: usize = 0;
        while j < instruction_length as usize
            invariant
                j <= instruction_length,
                cursor.wf(),
                cursor.bytes() == b,
                cursor.position() == spec_endpoints_end(b, p) + 2 + j,
                instructions@.len() == j,
                forall|k: int|
                    0 <= k < j ==> instructions@[k] == b[spec_endpoints_end(b, p) + 2 + k],
            decreases instruction_length - j,
        {
            let v = match cursor.read_u8() {
                Ok(v) => v,
                Err(e) => return Err(e),
            };
            instructions.push(v);
            j = j + 1;
        }
        let flags = match cursor.read_u8() {
            Ok(v) => v,
            Err(e) => return Err(e),
        };
        let repeat_count: u8 = if FlagBits::is_bit_active(flags, 3) {
            match cursor.read_u8() {
                Ok(v) => v,
                Err(e) => return Err(e),
            }
        } else {
            1
        };
        let x_coordinate: u16 = if FlagBits::is_bit_active(flags, 1) {
            match cursor.read_u8() {
                Ok(v) => v as u16,
                Err(e) => return Err(e),
            }
        } else {
            match cursor.read_u16() {
                Ok(v) => v,
                Err(e) => return Err(e),
            }
        };
        let y_coordinate: u16 = if FlagBits::is_bit_active(flags, 2) {
            match cursor.read_u8() {
                Ok(v) => v as u16,
                Err(e) => return Err(e),
            }
        } else {
            match cursor.read_u16() {
                Ok(v) => v,
                Err(e) => return Err(e),
            }
        };
        let simple = SimpleGlyph {
            contour_end_points,
            instruction_length,
            instructions,
            flags,
            repeat_count,
            x_coordinate,
            y_coordinate,
        };
        let g = GlyphOutline {
            contour_count,
            x_min,
            y_min,
            x_max,
            y_max,
            body: GlyphBody::Simple(simple),
        };
        proof {
            let gm = g.model();
            let sm = spec_simple_body(b, p);
            assert(gm.body->Simple_contour_end_points =~= sm->Simple_contour_end_points);
            assert(gm.body->Simple_instructions =~= sm->Simple_instructions);
            assert(gm =~~= spec_parse_glyph(b, p));
        }
        Ok(g)
    }
}

/// Where the glyph record number `k` stands, for glyphs laid out
/// back-to-back from `start`.
pub open spec fn spec_glyph_pos(b: Seq<u8>, start: int, k: int) -> int
    decreases k,
{
    if k <= 0 {
        start
    } else {
        spec_glyph_end(b, spec_glyph_pos(b, start, k - 1))
    }
}

/// Whether the source holds all `count` back-to-back glyph records from
/// `start`.
pub open spec fn glyphs_complete(b: Seq<u8>, start: int, count: int) -> bool {
    forall|k: int| 0 <= k < count ==> glyph_complete(b, #[trigger] spec_glyph_pos(b, start, k))
}

/// Locate the `glyf` entry in the directory, seek to its recorded offset
/// and read `num_glyphs` consecutive glyph records, assuming back-to-back
/// layout.
///
/// An absent `glyf` tag is `TableNotFound`, an offset past the end of the
/// source is `InvalidOffset`, and a source that ends within any field of
/// any record is `TruncatedInput`, abandoning the whole scan; each exactly
/// in that case.
#[verifier::loop_isolation(false)]
pub fn read_glyph_outlines(dir: &TableDirectory, cursor: &mut ByteCursor, num_glyphs: u16) -> (r:
    Result<Vec<GlyphOutline>, FontError>)
    requires
        old(cursor).wf(),
    ensures
        final(cursor).wf(),
        final(cursor).bytes() == old(cursor).bytes(),
        ({
            let b = old(cursor).bytes();
            match spec_lookup(dir@, GLYF_TAG) {
                Some(t) => {
                    &&& (r matches Ok(glyphs) ==> t.offset <= b.len() && glyphs_complete(
                        b,
                        t.offset as int,
                        num_glyphs as int,
                    ) && glyphs@.len() == num_glyphs && (forall|k: int|
                        0 <= k < num_glyphs ==> (#[trigger] glyphs@[k]).model()
                            == spec_parse_glyph(b, spec_glyph_pos(b, t.offset as int, k))))
                    &&& (r matches Err(e) ==> ((e == FontError::InvalidOffset && t.offset
                        > b.len()) || (e == FontError::TruncatedInput && t.offset <= b.len()
                        && !glyphs_complete(b, t.offset as int, num_glyphs as int))))
                    &&& (t.offset <= b.len() && glyphs_complete(
                        b,
                        t.offset as int,
                        num_glyphs as int,
                    ) ==> r is Ok)
                },
                None => r == Err::<Vec<GlyphOutline>, FontError>(FontError::TableNotFound),
            }
        }),
{
    let ghost b = old(cursor).bytes();
    let t = match dir.find(GLYF_TAG) {
        Ok(t) => t,
        Err(e) => return Err(e),
    };
    match cursor.seek(t.offset as usize) {
        Ok(_) => (),
        Err(e) => return Err(e),
    };
    let ghost start = t.offset as int;
    let mut glyphs: Vec<GlyphOutline> = Vec::new();
    let mut i: u16 = 0;
    while i < num_glyphs
        invariant
            i <= num_glyphs,
            cursor.wf(),
            cursor.bytes() == b,
            cursor.position() == spec_glyph_pos(b, start, i as int),
            glyphs@.len() == i,
            forall|k: int|
                0 <= k < i ==> glyph_complete(b, #[trigger] spec_glyph_pos(b, start, k)),
            forall|k: int|
                0 <= k < i ==> (#[trigger] glyphs@[k]).model() == spec_parse_glyph(
                    b,
                    spec_glyph_pos(b, start, k),
                ),
        decreases num_glyphs - i,
    {
        let g = match GlyphOutline::parse(cursor) {
            Ok(g) => g,
            Err(e) => {
                proof {
                    assert(!glyph_complete(b, spec_glyph_pos(b, start, i as int)));
                }
                return Err(e);
            },
        };
        proof {
            assert(spec_glyph_pos(b, start, i as int + 1) == spec_glyph_end(
                b,
                spec_glyph_pos(b, start, i as int),
            ));
        }
        glyphs.push(g);
        i = i + 1;
    }
    Ok(glyphs)
}

} // verus!
