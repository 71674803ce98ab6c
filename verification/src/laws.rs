//! Format-wide laws: exactly when each header variant parses, that a buffer
//! assembled from chosen geometry and bitmaps parses back to them with every
//! pixel intact, and that glyph and pixel queries are deterministic.

use vstd::prelude::*;

use crate::bytes::bit_msb;
use crate::bytes::spec_le_u16;
use crate::bytes::spec_le_u32;
use crate::font::spec_font_pixel;
use crate::font::spec_parse;
use crate::font::v1_count;
use crate::font::Error;
use crate::font::Font;
use crate::font::FontGeom;
use crate::font::Glyph;

verus! {

/// Law: a buffer whose first byte selects the compact variant parses
/// successfully exactly when it has at least 4 bytes, its second byte is
/// 0x04 and its count selector is below 4; the geometry is then the fixed
/// compact one, with a glyph count of 256 or 512 picked by the selector
/// table.
pub proof fn lemma_variant1_parse(s: Seq<u8>)
    requires
        s.len() >= 1,
        s[0] == 0x36,
    ensures
        spec_parse(s) is Ok <==> s.len() >= 4 && s[1] == 0x04 && s[2] < 4,
        spec_parse(s) matches Ok(g) ==> {
            &&& g.count == v1_count(s[2])
            &&& g.count == 256 || g.count == 512
            &&& g.width == 8
            &&& g.height == s[3]
            &&& g.byte_width == 1
            &&& g.data_offset == 4
        },
{
}

/// Law: a buffer whose first byte selects the extended variant parses
/// successfully exactly when it has at least 32 bytes and its magic, version
/// and declared-offset fields match; the geometry then comes from the
/// header's own fields, with `byte_width == ceil(width / 8)`.
pub proof fn lemma_variant2_parse(s: Seq<u8>)
    requires
        s.len() >= 1,
        s[0] == 0x72,
    ensures
        spec_parse(s) is Ok <==> (s.len() >= 32 && s[1] == 0xb5 && s[2] == 0x4a && s[3] == 0x86
            && s[4] == 0 && s[5] == 0 && s[6] == 0 && s[7] == 0 && spec_le_u32(s, 8) == 0x20),
        spec_parse(s) matches Ok(g) ==> {
            &&& g.count == spec_le_u16(s, 16)
            &&& g.width == s[28]
            &&& g.height == s[24]
            &&& g.byte_width == (g.width + 7) / 8
            &&& 8 * g.byte_width - 8 < g.width <= 8 * g.byte_width
            &&& g.data_offset == 32
        },
{
}

/// A compact-variant buffer assembled from a chosen count selector, glyph
/// height, and the concatenated glyph bitmaps (one byte per row).
pub open spec fn build_v1(selector: u8, height: u8, glyphs: Seq<u8>) -> Seq<u8> {
    seq![0x36u8, 0x04u8, selector, height] + glyphs
}

/// The geometry a compact-variant build declares.
pub open spec fn v1_geom(selector: u8, height: u8) -> FontGeom {
    FontGeom {
        count: v1_count(selector),
        width: 8,
        height: height as int,
        byte_width: 1,
        data_offset: 4,
    }
}

/// Law (round trip, compact variant, geometry): a buffer built by
/// [`build_v1`] from a valid selector parses back to exactly the chosen
/// geometry.
pub proof fn lemma_v1_round_trip_geometry(selector: u8, height: u8, glyphs: Seq<u8>)
    requires
        selector < 4,
    ensures
        spec_parse(build_v1(selector, height, glyphs)) == Ok::<FontGeom, Error>(
            v1_geom(selector, height),
        ),
{
    let s = build_v1(selector, height, glyphs);
    assert(s[0] == 0x36 && s[1] == 0x04 && s[2] == selector && s[3] == height);
}

/// Law (round trip, compact variant, pixels): every pixel stored in the
/// glyph bitmaps of a [`build_v1`] buffer reads back unchanged through the
/// parsed geometry.
pub proof fn lemma_v1_round_trip_pixel(
    selector: u8,
    height: u8,
    glyphs: Seq<u8>,
    cn: int,
    x: int,
    y: int,
)
    requires
        selector < 4,
        0 <= cn,
        0 <= y < height,
        0 <= x < 8,
        (cn + 1) * (height as int) <= glyphs.len(),
    ensures
        spec_font_pixel(build_v1(selector, height, glyphs), v1_geom(selector, height), cn, x, y)
            == bit_msb(glyphs[cn * height + y], x % 8),
{
    let s = build_v1(selector, height, glyphs);
    let g = v1_geom(selector, height);
    assert(g.glyph_size() == (height as int) * 1);
    assert((height as int) * 1 == height as int) by (nonlinear_arith);
    assert(cn * (height as int) + height == (cn + 1) * (height as int)) by (nonlinear_arith);
    assert(0 <= cn * (height as int)) by (nonlinear_arith)
        requires
            0 <= cn,
            0 <= height,
    ;
    assert(x / 8 == 0);
    let off = g.data_offset + cn * g.glyph_size();
    let sub = s.subrange(off, off + g.glyph_size());
    assert(sub[y] == s[off + y]);
    assert(s[off + y] == glyphs[cn * height + y]);
}

/// An extended-variant buffer assembled from a chosen glyph count, geometry,
/// and the concatenated glyph bitmaps (`ceil(width / 8)` bytes per row). The
/// unused flags, declared-count and per-glyph-size fields are zero.
pub open spec fn build_v2(count: u16, width: u8, height: u8, glyphs: Seq<u8>) -> Seq<u8> {
    seq![
        0x72u8,
        0xb5u8,
        0x4au8,
        0x86u8,
        0u8,
        0u8,
        0u8,
        0u8,
        0x20u8,
        0u8,
        0u8,
        0u8,
        0u8,
        0u8,
        0u8,
        0u8,
        (count % 0x100) as u8,
        (count / 0x100) as u8,
        0u8,
        0u8,
        0u8,
        0u8,
        0u8,
        0u8,
        height,
        0u8,
        0u8,
        0u8,
        width,
        0u8,
        0u8,
        0u8,
    ] + glyphs
}

/// The geometry an extended-variant build declares.
pub open spec fn v2_geom(count: u16, width: u8, height: u8) -> FontGeom {
    FontGeom {
        count: count as int,
        width: width as int,
        height: height as int,
        byte_width: (width as int + 7) / 8,
        data_offset: 32,
    }
}

/// Law (round trip, extended variant, geometry): a buffer built by
/// [`build_v2`] parses back to exactly the chosen geometry.
pub proof fn lemma_v2_round_trip_geometry(count: u16, width: u8, height: u8, glyphs: Seq<u8>)
    ensures
        spec_parse(build_v2(count, width, height, glyphs)) == Ok::<FontGeom, Error>(
            v2_geom(count, width, height),
        ),
{
    let s = build_v2(count, width, height, glyphs);
    assert(s[0] == 0x72 && s[1] == 0xb5 && s[2] == 0x4a && s[3] == 0x86);
    assert(s[4] == 0 && s[5] == 0 && s[6] == 0 && s[7] == 0);
    assert(s[8] == 0x20 && s[9] == 0 && s[10] == 0 && s[11] == 0);
    assert(spec_le_u32(s, 8) == 0x20);
    assert(s[16] == count % 0x100 && s[17] == count / 0x100);
    assert(spec_le_u16(s, 16) == count % 0x100 + (count / 0x100) * 0x100);
    assert(count % 0x100 + (count / 0x100) * 0x100 == count) by (nonlinear_arith);
    assert(s[24] == height && s[28] == width);
}

/// Law (round trip, extended variant, pixels): every pixel stored in the
/// glyph bitmaps of a [`build_v2`] buffer reads back unchanged through the
/// parsed geometry.
pub proof fn lemma_v2_round_trip_pixel(
    count: u16,
    width: u8,
    height: u8,
    glyphs: Seq<u8>,
    cn: int,
    x: int,
    y: int,
)
    requires
        0 <= cn,
        0 <= y < height,
        0 <= x < width,
        (cn + 1) * v2_geom(count, width, height).glyph_size() <= glyphs.len(),
    ensures
        spec_font_pixel(build_v2(count, width, height, glyphs), v2_geom(count, width, height), cn, x, y)
            == bit_msb(
            glyphs[cn * v2_geom(count, width, height).glyph_size() + y * ((width as int + 7) / 8) + x
                / 8],
            x % 8,
        ),
{
    let s = build_v2(count, width, height, glyphs);
    let g = v2_geom(count, width, height);
    let bw = g.byte_width;
    let size = g.glyph_size();
    assert(x / 8 < bw && 0 <= x / 8);
    assert(y * bw + x / 8 < size && 0 <= y * bw) by (nonlinear_arith)
        requires
            0 <= y < height,
            0 <= x / 8 < bw,
            size == (height as int) * bw,
    ;
    assert(cn * size + size == (cn + 1) * size) by (nonlinear_arith);
    assert(0 <= cn * size) by (nonlinear_arith)
        requires
            0 <= cn,
            0 <= size,
    ;
    let off = g.data_offset + cn * size;
    let sub = s.subrange(off, off + size);
    assert(sub[y * bw + x / 8] == s[off + y * bw + x / 8]);
    assert(s[off + y * bw + x / 8] == glyphs[cn * size + y * bw + x / 8]);
}

/// Law (idempotence): glyph and pixel queries have no hidden state. The
/// contracts of [`Font::get_char`] and [`Glyph::get`] pin their results to
/// [`Font::spec_glyph_of`] and [`Glyph::spec_get`], so any two glyph views
/// the former allows for the same font and character code answer every
/// pixel query identically.
pub proof fn lemma_queries_deterministic(f: Font, cn: int, g1: Glyph, g2: Glyph, x: int, y: int)
    requires
        f.spec_glyph_of(cn, g1),
        f.spec_glyph_of(cn, g2),
    ensures
        g1.spec_get(x, y) == g2.spec_get(x, y),
{
}

} // verus!
