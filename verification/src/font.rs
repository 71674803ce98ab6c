//! The PSF format parser and the glyph accessor.
//!
//! [`Font::parse_font_data`] detects which of the two header variants a byte
//! buffer holds, validates the structural fields, and returns a [`Font`]
//! descriptor. [`Font::get_char`] then locates one glyph's packed bitmap and
//! [`Glyph::get`] answers per-pixel queries against it.
//!
//! The spec functions [`spec_parse`], [`Font::spec_glyph_of`] and
//! [`Glyph::spec_get`] state the whole pipeline over plain byte sequences;
//! every executable function is pinned to them.

use vstd::arithmetic::div_mod::lemma_mod_multiples_vanish;
use vstd::prelude::*;

use crate::bytes::as_le_u16;
use crate::bytes::as_le_u32;
use crate::bytes::bit_msb;
use crate::bytes::spec_le_u16;
use crate::bytes::spec_le_u32;

verus! {

/// Failures of [`Font::parse_font_data`], plus the error kinds the
/// surrounding byte source (file reading, decompression) reports through the
/// same type.
#[derive(Debug, Copy, Clone)]
pub enum Error {
    /// Unspecified error.
    Unknown,
    /// File doesn't exist.
    FileNotFound,
    /// Failure to open and/or read the file itself.
    FileIo,
    /// Invalid or unsupported file format.
    InvalidFontFormat(&'static str),
    /// The extended header declares a glyph-data offset other than the one
    /// the format fixes; carries the declared value.
    InvalidOffset(u32),
}

/// The geometry a successful parse extracts from a header: the mathematical
/// model of a [`Font`] descriptor.
pub ghost struct FontGeom {
    /// Number of glyph slots in the table.
    pub count: int,
    /// Pixel width of every glyph.
    pub width: int,
    /// Pixel height of every glyph.
    pub height: int,
    /// Bytes storing one pixel row: `ceil(width / 8)`.
    pub byte_width: int,
    /// Byte offset where the glyph bitmap table begins; equals the header
    /// size of the detected variant.
    pub data_offset: int,
}

impl FontGeom {
    /// Bounds every parsed geometry satisfies: each field fits its header
    /// field's width, row packing never loses columns, and the data offset
    /// is one of the two header sizes.
    pub open spec fn wf(self) -> bool {
        &&& 0 <= self.count <= 0xffff
        &&& 0 <= self.width <= 0xff
        &&& 0 <= self.height <= 0xff
        &&& 0 <= self.byte_width <= 32
        &&& self.width <= self.byte_width * 8
        &&& self.data_offset == 4 || self.data_offset == 32
    }

    /// Bytes holding one glyph's bitmap: `height` rows of `byte_width` bytes.
    pub open spec fn glyph_size(self) -> int {
        self.height * self.byte_width
    }
}

/// Glyph count selected by the compact header's third byte.
pub open spec fn v1_count(selector: u8) -> int
    recommends
        selector < 4,
{
    if selector == 0 || selector == 2 {
        256
    } else {
        512
    }
}

/// Parse of a compact (variant 1) header: 4 bytes
/// `[0x36, 0x04, count selector, height]`, fixed width 8 and one byte per
/// row.
pub open spec fn spec_parse_v1(s: Seq<u8>) -> Result<FontGeom, Error>
    recommends
        s.len() >= 1,
        s[0] == 0x36,
{
    if s.len() < 4 {
        Err(Error::InvalidFontFormat("mode 1, too small"))
    } else if s[1] != 0x04 {
        Err(Error::InvalidFontFormat("mode 1, magic number"))
    } else if s[2] >= 4 {
        Err(Error::InvalidFontFormat("mode 1, invalid count"))
    } else {
        Ok(
            FontGeom {
                count: v1_count(s[2]),
                width: 8,
                height: s[3] as int,
                byte_width: 1,
                data_offset: 4,
            },
        )
    }
}

/// Parse of an extended (variant 2) header: 32 bytes, all multi-byte fields
/// little-endian. After the magic and version checks, the declared data
/// offset must equal 0x20; the glyph count is read from bytes 16 and 17, and
/// height and width are the low bytes of the 32-bit fields at 24 and 28.
pub open spec fn spec_parse_v2(s: Seq<u8>) -> Result<FontGeom, Error>
    recommends
        s.len() >= 1,
        s[0] == 0x72,
{
    if s.len() < 32 {
        Err(Error::InvalidFontFormat("mode != 1, too small"))
    } else if s[1] != 0xb5 || s[2] != 0x4a || s[3] != 0x86 {
        Err(Error::InvalidFontFormat("mode != 1, magic number"))
    } else if s[4] != 0 || s[5] != 0 || s[6] != 0 || s[7] != 0 {
        Err(Error::InvalidFontFormat("mode != 1, version"))
    } else if spec_le_u32(s, 8) != 0x20 {
        Err(Error::InvalidOffset(spec_le_u32(s, 8) as u32))
    } else if spec_le_u16(s, 18) > 0x10000 {
        Err(Error::InvalidFontFormat("no chars"))
    } else {
        Ok(
            FontGeom {
                count: spec_le_u16(s, 16),
                width: s[28] as int,
                height: s[24] as int,
                byte_width: (s[28] + 7) / 8,
                data_offset: 32,
            },
        )
    }
}

/// What parsing a raw buffer yields: the variant is picked by the first
/// byte (0x36 compact, 0x72 extended), and each malformed buffer maps to
/// exactly one error.
pub open spec fn spec_parse(s: Seq<u8>) -> Result<FontGeom, Error> {
    if s.len() == 0 {
        Err(Error::InvalidFontFormat("Empty"))
    } else if s[0] == 0x36 {
        spec_parse_v1(s)
    } else if s[0] == 0x72 {
        spec_parse_v2(s)
    } else {
        Err(Error::InvalidFontFormat("invalid mode"))
    }
}

/// Pixel `(x, y)` of glyph `cn`, read directly from a raw buffer laid out
/// with geometry `g`: the glyph's bitmap is the `g.glyph_size()` bytes
/// starting at `g.data_offset + cn * g.glyph_size()`.
pub open spec fn spec_font_pixel(s: Seq<u8>, g: FontGeom, cn: int, x: int, y: int) -> bool {
    spec_pixel(
        s.subrange(g.data_offset + cn * g.glyph_size(), g.data_offset + (cn + 1) * g.glyph_size()),
        g.byte_width,
        x,
        y,
    )
}

/// Stores information about a specific loaded font, including the number of
/// available characters and each character's width and height. Borrows the
/// raw buffer it was parsed from; glyphs reference into that buffer.
#[derive(Debug)]
pub struct Font<'a> {
    raw_data: &'a [u8],
    font_data_offset: usize,
    count: usize,
    width: usize,
    height: usize,
    byte_width: usize,
}

/// Stores information about a specific glyph: a view of `height` rows of
/// `byte_width` packed bytes inside the font's buffer.
pub struct Glyph<'a> {
    d: &'a [u8],
    h: usize,
    w: usize,
    bw: usize,
}

/// Pixel `(x, y)` of a glyph bitmap stored as packed rows of `row_bytes`
/// bytes each: bit `x % 8` (most significant bit first) of the byte at
/// `y * row_bytes + x / 8`.
pub open spec fn spec_pixel(data: Seq<u8>, row_bytes: int, x: int, y: int) -> bool
    recommends
        0 <= x,
        0 <= y,
        0 <= y * row_bytes + x / 8 < data.len(),
{
    bit_msb(data[y * row_bytes + x / 8], x % 8)
}

impl<'a> Glyph<'a> {
    /// The packed bitmap bytes this glyph views.
    pub closed spec fn data(self) -> Seq<u8> {
        self.d@
    }

    /// Pixel width, as the font descriptor declared it.
    pub closed spec fn spec_width(self) -> int {
        self.w as int
    }

    /// Pixel height, as the font descriptor declared it.
    pub closed spec fn spec_height(self) -> int {
        self.h as int
    }

    /// Bytes per packed pixel row.
    pub closed spec fn spec_row_bytes(self) -> int {
        self.bw as int
    }

    /// Every glyph [`Font::get_char`] hands out satisfies this: the view
    /// holds exactly `height` rows of `row_bytes` bytes, and the declared
    /// width fits in those bytes.
    pub open spec fn wf(self) -> bool {
        &&& self.data().len() == self.spec_height() * self.spec_row_bytes()
        &&& self.spec_width() <= self.spec_row_bytes() * 8
        &&& self.spec_width() <= 0xff
        &&& self.spec_height() <= 0xff
        &&& self.spec_row_bytes() <= 32
    }

    /// What [`Glyph::get`] returns: `None` strictly above the declared
    /// bounds (the boundary check is strict, so `x == width` and
    /// `y == height` are still answered), otherwise the stored pixel.
    pub open spec fn spec_get(self, x: int, y: int) -> Option<bool> {
        if x > self.spec_width() || y > self.spec_height() {
            None
        } else {
            Some(spec_pixel(self.data(), self.spec_row_bytes(), x, y))
        }
    }

    /// Returns if a specific point is set (`true`) or not (`false`).
    ///
    /// `x` specifies the point from `0..self.width`
    ///
    /// `y` specifies the point from `0..self.height`
    pub fn get(&self, x: usize, y: usize) -> (r: Option<bool>)
        requires
            self.wf(),
            x <= self.spec_width() && y <= self.spec_height() ==> y * self.spec_row_bytes() + x
                / 8 < self.data().len(),
        ensures
            r == self.spec_get(x as int, y as int),
            r is None <==> x > self.spec_width() || y > self.spec_height(),
    {
        if x > self.w || y > self.h {
            None
        } else {
            proof {
                assert(y * self.spec_row_bytes() <= 0xff * 32) by (nonlinear_arith)
                    requires
                        y <= 0xff,
                        0 <= self.spec_row_bytes() <= 32,
                ;
            }
            let byte = self.d[y * self.bw + x / 8];
            let shift = (7 - (x % 8)) as u8;
            let bit = (byte >> shift) & 1;
            proof {
                assert((byte >> shift) & 1 == 0 || (byte >> shift) & 1 == 1) by (bit_vector);
            }
            Some(bit != 0)
        }
    }

    /// Returns width of the glyph
    pub fn width(&self) -> (r: usize)
        ensures
            r == self.spec_width(),
    {
        self.w
    }

    /// Returns height of the glyph
    pub fn height(&self) -> (r: usize)
        ensures
            r == self.spec_height(),
    {
        self.h
    }
}

impl<'a> Font<'a> {
    /// The geometry this descriptor carries.
    pub closed spec fn geom(self) -> FontGeom {
        FontGeom {
            count: self.count as int,
            width: self.width as int,
            height: self.height as int,
            byte_width: self.byte_width as int,
            data_offset: self.font_data_offset as int,
        }
    }

    /// The raw buffer this descriptor was parsed from.
    pub closed spec fn data(self) -> Seq<u8> {
        self.raw_data@
    }

    /// Every descriptor [`Font::parse_font_data`] returns satisfies this.
    pub open spec fn wf(self) -> bool {
        self.geom().wf()
    }

    /// Returns height of every glyph
    pub fn height(&self) -> (r: usize)
        ensures
            r == self.geom().height,
    {
        self.height
    }

    /// Returns width of every glyph
    pub fn width(&self) -> (r: usize)
        ensures
            r == self.geom().width,
    {
        self.width
    }

    /// Returns number of available characters in the font
    pub fn size(&self) -> (r: usize)
        ensures
            r == self.geom().count,
    {
        self.count
    }

    /// Whether `g` is the glyph view for character code `cn` of this font:
    /// the declared geometry, over the `glyph_size()` bytes starting at
    /// `data_offset + cn * glyph_size()`.
    pub open spec fn spec_glyph_of(self, cn: int, g: Glyph) -> bool {
        let size = self.geom().glyph_size();
        let off = self.geom().data_offset + cn * size;
        &&& g.spec_width() == self.geom().width
        &&& g.spec_height() == self.geom().height
        &&& g.spec_row_bytes() == self.geom().byte_width
        &&& g.data() == self.data().subrange(off, off + size)
    }

    /// Returns [`Glyph`] data for a specific character. If it's not present
    /// in the font, [`None`] is returned.
    ///
    /// The boundary check is strict, so the code exactly at the declared
    /// count is still answered; the buffer must hold bitmap data up to and
    /// including that slot for codes the check lets through.
    pub fn get_char(&self, c: char) -> (r: Option<Glyph>)
        requires
            self.wf(),
            c as int <= self.geom().count ==> self.geom().data_offset + (c as int + 1)
                * self.geom().glyph_size() <= self.data().len(),
        ensures
            r is None <==> c as int > self.geom().count,
            r matches Some(g) ==> g.wf() && self.spec_glyph_of(c as int, g),
    {
        let cn = c as usize;
        if cn > self.count {
            return None;
        }
        proof {
            assert(self.geom().glyph_size() <= 0xff * 32) by (nonlinear_arith)
                requires
                    0 <= self.geom().height <= 0xff,
                    0 <= self.geom().byte_width <= 32,
            ;
            assert((cn + 1) * self.geom().glyph_size() == cn * self.geom().glyph_size()
                + self.geom().glyph_size()) by (nonlinear_arith);
            assert(cn * self.geom().glyph_size() <= 0xffff * (0xff * 32)) by (nonlinear_arith)
                requires
                    0 <= cn <= 0xffff,
                    0 <= self.geom().glyph_size() <= 0xff * 32,
            ;
        }
        let char_byte_length = self.height * self.byte_width;
        let offset = self.font_data_offset + cn * char_byte_length;
        Some(
            Glyph {
                d: &self.raw_data[offset..offset + char_byte_length],
                h: self.height,
                w: self.width,
                bw: self.byte_width,
            },
        )
    }

    /// Parses a raw PSF byte buffer into a font descriptor.
    ///
    /// Succeeds exactly when [`spec_parse`] does, with the geometry it
    /// gives; fails with exactly the error it gives.
    pub fn parse_font_data(raw_data: &'a [u8]) -> (r: Result<Font<'a>, Error>)
        ensures
            r is Ok <==> spec_parse(raw_data@) is Ok,
            r matches Ok(f) ==> spec_parse(raw_data@) == Ok::<FontGeom, Error>(f.geom())
                && f.data() == raw_data@ && f.wf(),
            r matches Err(e) ==> spec_parse(raw_data@) == Err::<FontGeom, Error>(e),
    {
        if raw_data.is_empty() {
            return Err(Error::InvalidFontFormat("Empty"));
        }
        let mode_byte = raw_data[0];
        if mode_byte == 0x36 {
            if raw_data.len() < 4 {
                return Err(Error::InvalidFontFormat("mode 1, too small"));
            }
            if raw_data[1] != 0x04 {
                return Err(Error::InvalidFontFormat("mode 1, magic number"));
            }
            let count: usize = match raw_data[2] {
                0 => 256,
                1 => 512,
                2 => 256,
                3 => 512,
                _ => {
                    return Err(Error::InvalidFontFormat("mode 1, invalid count"));
                },
            };
            let height = raw_data[3];
            Ok(
                Font {
                    raw_data,
                    font_data_offset: 4,
                    count,
                    width: 8,
                    height: height as usize,
                    byte_width: 1,
                },
            )
        } else if mode_byte == 0x72 {
            if raw_data.len() < 32 {
                return Err(Error::InvalidFontFormat("mode != 1, too small"));
            }
            if raw_data[1] != 0xb5 || raw_data[2] != 0x4a || raw_data[3] != 0x86 {
                return Err(Error::InvalidFontFormat("mode != 1, magic number"));
            }
            if raw_data[4] != 0 || raw_data[5] != 0 || raw_data[6] != 0 || raw_data[7] != 0 {
                return Err(Error::InvalidFontFormat("mode != 1, version"));
            }
            let offset = as_le_u32(raw_data, 8);
            if offset != 0x20 {
                return Err(Error::InvalidOffset(offset));
            }
            // Bytes 12..16 hold a flags field: positioned by the format but
            // unused here.
            let count = raw_data[16] as usize + raw_data[17] as usize * 256;
            let no_chars = as_le_u16(raw_data, 18);
            if no_chars as u32 > 64 * 1024 {
                return Err(Error::InvalidFontFormat("no chars"));
            }
            // Bytes 20..24 hold a per-glyph byte-size field: also unused.
            // Height and width are stored in 32-bit fields; only the low
            // byte of each is kept.
            let height = (as_le_u32(raw_data, 24) % 0x100) as u8;
            let width = (as_le_u32(raw_data, 28) % 0x100) as u8;
            let byte_width = (width as usize + 7) / 8;
            proof {
                let s = raw_data@;
                lemma_mod_multiples_vanish(
                    s[25] + s[26] * 0x100 + s[27] * 0x10000,
                    s[24] as int,
                    0x100,
                );
                lemma_mod_multiples_vanish(
                    s[29] + s[30] * 0x100 + s[31] * 0x10000,
                    s[28] as int,
                    0x100,
                );
                assert(width <= byte_width * 8);
            }
            Ok(
                Font {
                    raw_data,
                    font_data_offset: 32,
                    count,
                    width: width as usize,
                    height: height as usize,
                    byte_width,
                },
            )
        } else {
            Err(Error::InvalidFontFormat("invalid mode"))
        }
    }
}

} // verus!
