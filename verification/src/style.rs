//! Plain-value models of the styling values a table is drawn with, and the
//! table's options.

use vstd::prelude::*;

verus! {

/// A colour as FLTK encodes it: either an index into the colour map or an
/// RGB value in the upper three bytes (`0xRRGGBB00`).
#[derive(Debug, Clone, Copy, PartialEq, Eq, Structural)]
pub struct Color {
    pub bits: u32,
}

/// A font as an index into FLTK's font table.
#[derive(Debug, Clone, Copy, PartialEq, Eq, Structural)]
pub struct Font {
    pub bits: i32,
}

/// Alignment flags of a label, as FLTK encodes them.
#[derive(Debug, Clone, Copy, PartialEq, Eq, Structural)]
pub struct Align {
    pub bits: i32,
}

/// A box (frame) type, as FLTK's index of it.
#[derive(Debug, Clone, Copy, PartialEq, Eq, Structural)]
pub struct FrameType {
    pub bits: i32,
}

/// The RGB encoding of a `0xRRGGBB` value: the three low bytes moved up by
/// one byte.
pub open spec fn rgb_bits(val: u32) -> u32 {
    ((val % 0x0100_0000) * 256) as u32
}

impl Color {
    /// The colour whose RGB value is the hex number `0xRRGGBB`
    /// (the top byte of `val` is ignored).
    pub fn from_u32(val: u32) -> (c: Color)
        ensures
            c.bits == rgb_bits(val),
    {
        let bits: u32 = (val & 0x00ff_ffff) << 8;
        assert(bits == ((val % 0x0100_0000) * 256) as u32) by (bit_vector)
            requires
                bits == (val & 0x00ff_ffff) << 8,
        ;
        Color { bits }
    }
}

/// The parameters of a table: its size, whether its cells can be edited, and
/// the style that cells and headers are drawn with where a cell sets none.
#[derive(Debug, Clone, Copy)]
pub struct TableOpts {
    pub rows: i32,
    pub cols: i32,
    pub editable: bool,
    pub cell_color: Color,
    pub cell_font: Font,
    pub cell_font_color: Color,
    pub cell_font_size: i32,
    pub cell_selection_color: Color,
    pub cell_align: Align,
    pub cell_border_color: Color,
    pub cell_padding: i32,
    pub header_font: Font,
    pub header_frame: FrameType,
    pub header_color: Color,
    pub header_font_color: Color,
    pub header_font_size: i32,
    pub header_align: Align,
}

/// The index of FLTK's `BackGround2` colour.
pub const BACKGROUND2: u32 = 7;
/// The index of FLTK's `Gray0` colour.
pub const GRAY0: u32 = 32;
/// The index of FLTK's `FrameDefault` colour.
pub const FRAME_DEFAULT: u32 = 49;
/// The index of FLTK's `Black` colour.
pub const BLACK: u32 = 56;
/// The index of FLTK's `Helvetica` font.
pub const HELVETICA: i32 = 0;
/// FLTK's centred alignment.
pub const ALIGN_CENTER: i32 = 0;
/// The index of FLTK's `ThinUpBox` frame.
pub const THIN_UP_BOX: i32 = 6;
/// The light grey (`0xD3D3D3`) that a selected cell is filled with by default.
pub const LIGHT_GRAY_HEX: u32 = 0x00D3_D3D3;

/// The options a table starts from: one row, one column, not editable,
/// Helvetica 14 on the standard FLTK colours, and cells one pixel in from
/// their border.
pub open spec fn default_opts() -> TableOpts {
    TableOpts {
        rows: 1,
        cols: 1,
        editable: false,
        cell_color: Color { bits: BACKGROUND2 },
        cell_font: Font { bits: HELVETICA },
        cell_font_color: Color { bits: GRAY0 },
        cell_font_size: 14,
        cell_selection_color: Color { bits: rgb_bits(LIGHT_GRAY_HEX) },
        cell_align: Align { bits: ALIGN_CENTER },
        cell_border_color: Color { bits: GRAY0 },
        cell_padding: 1,
        header_font: Font { bits: HELVETICA },
        header_frame: FrameType { bits: THIN_UP_BOX },
        header_color: Color { bits: FRAME_DEFAULT },
        header_font_color: Color { bits: BLACK },
        header_font_size: 14,
        header_align: Align { bits: ALIGN_CENTER },
    }
}

impl Default for TableOpts {
    fn default() -> (o: Self)
        ensures
            o == default_opts(),
    {
        TableOpts {
            rows: 1,
            cols: 1,
            editable: false,
            cell_color: Color { bits: BACKGROUND2 },
            cell_font: Font { bits: HELVETICA },
            cell_font_color: Color { bits: GRAY0 },
            cell_font_size: 14,
            cell_selection_color: Color::from_u32(LIGHT_GRAY_HEX),
            cell_align: Align { bits: ALIGN_CENTER },
            cell_border_color: Color { bits: GRAY0 },
            cell_padding: 1,
            header_font: Font { bits: HELVETICA },
            header_frame: FrameType { bits: THIN_UP_BOX },
            header_color: Color { bits: FRAME_DEFAULT },
            header_font_color: Color { bits: BLACK },
            header_font_size: 14,
            header_align: Align { bits: ALIGN_CENTER },
        }
    }
}

} // verus!
