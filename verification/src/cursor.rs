//! System cursors and custom cursors: the X11 font glyph of each system cursor, and the
//! delays of animated cursor frames.

use vstd::prelude::*;
use crate::error::{Error, ErrorKind, reason_view};
use crate::geom::{Extent2, Rgba, Vec2};
use crate::time_utils::Duration;

verus! {

/// Well-known system cursors.
#[derive(Debug, Copy, Clone, Hash, Eq, PartialEq, Structural)]
pub enum SystemCursor {
    Arrow,
    Hand,
    Ibeam,
    Wait,
    Crosshair,
    WaitArrow,
    ResizeNWToSE,
    ResizeNEToSW,
    ResizeV,
    ResizeH,
    ResizeHV,
    Deny,
    Question,
    ReverseArrow,
    TopSide,
    BottomSide,
    LeftSide,
    RightSide,
    BottomLeftCorner,
    BottomRightCorner,
    TopLeftCorner,
    TopRightCorner,
    Pencil,
    Spraycan,
}

/// One frame of an animated RGBA cursor.
#[derive(Debug, Clone, Hash, Eq, PartialEq)]
pub struct RgbaCursorAnimFrame {
    pub duration: Duration,
    pub data: RgbaCursorData,
}

/// The image of an RGBA cursor, with its hotspot.
#[derive(Debug, Clone, Hash, Eq, PartialEq)]
pub struct RgbaCursorData {
    pub hotspot: Vec2<u32>,
    pub size: Extent2<u32>,
    pub rgba: Vec<Rgba<u8>>,
}

/// One frame of an animated cursor, with masks.
#[derive(Debug, Clone, Hash, Eq, PartialEq)]
pub struct CursorFrame {
    pub duration: Duration,
    pub data: CursorData,
}

/// The image of a cursor, with its hotspot and masks.
#[derive(Debug, Clone, Hash, Eq, PartialEq)]
pub struct CursorData {
    pub hotspot: Vec2<u32>,
    pub size: Extent2<u32>,
    pub rgba_data: Vec<Rgba<u8>>,
    pub and_mask: Vec<bool>,
    pub xor_mask: Vec<bool>,
}

/// Glyphs of the X11 cursor font (`X11/cursorfont.h`).
pub const XC_BOTTOM_LEFT_CORNER: u32 = 12;
pub const XC_BOTTOM_RIGHT_CORNER: u32 = 14;
pub const XC_BOTTOM_SIDE: u32 = 16;
pub const XC_FLEUR: u32 = 52;
pub const XC_HAND2: u32 = 60;
pub const XC_LEFT_PTR: u32 = 68;
pub const XC_LEFT_SIDE: u32 = 70;
pub const XC_PENCIL: u32 = 86;
pub const XC_PIRATE: u32 = 88;
pub const XC_QUESTION_ARROW: u32 = 92;
pub const XC_RIGHT_PTR: u32 = 94;
pub const XC_RIGHT_SIDE: u32 = 96;
pub const XC_SB_H_DOUBLE_ARROW: u32 = 108;
pub const XC_SB_V_DOUBLE_ARROW: u32 = 116;
pub const XC_SPRAYCAN: u32 = 124;
pub const XC_TCROSS: u32 = 130;
pub const XC_TOP_LEFT_CORNER: u32 = 134;
pub const XC_TOP_RIGHT_CORNER: u32 = 136;
pub const XC_TOP_SIDE: u32 = 138;
pub const XC_WATCH: u32 = 150;
pub const XC_XTERM: u32 = 152;

/// The X11 cursor font glyph that stands for a system cursor.
pub open spec fn x_glyph_spec(s: SystemCursor) -> u32 {
    match s {
        SystemCursor::Arrow => XC_LEFT_PTR,
        SystemCursor::Hand => XC_HAND2,
        SystemCursor::Ibeam => XC_XTERM,
        SystemCursor::Wait => XC_WATCH,
        SystemCursor::Crosshair => XC_TCROSS,
        SystemCursor::WaitArrow => XC_WATCH,
        SystemCursor::ResizeNWToSE => XC_FLEUR,
        SystemCursor::ResizeNEToSW => XC_FLEUR,
        SystemCursor::ResizeV => XC_SB_V_DOUBLE_ARROW,
        SystemCursor::ResizeH => XC_SB_H_DOUBLE_ARROW,
        SystemCursor::ResizeHV => XC_FLEUR,
        SystemCursor::Deny => XC_PIRATE,
        SystemCursor::Question => XC_QUESTION_ARROW,
        SystemCursor::ReverseArrow => XC_RIGHT_PTR,
        SystemCursor::TopSide => XC_TOP_SIDE,
        SystemCursor::BottomSide => XC_BOTTOM_SIDE,
        SystemCursor::LeftSide => XC_LEFT_SIDE,
        SystemCursor::RightSide => XC_RIGHT_SIDE,
        SystemCursor::BottomLeftCorner => XC_BOTTOM_LEFT_CORNER,
        SystemCursor::BottomRightCorner => XC_BOTTOM_RIGHT_CORNER,
        SystemCursor::TopLeftCorner => XC_TOP_LEFT_CORNER,
        SystemCursor::TopRightCorner => XC_TOP_RIGHT_CORNER,
        SystemCursor::Pencil => XC_PENCIL,
        SystemCursor::Spraycan => XC_SPRAYCAN,
    }
}

/// The X11 cursor font glyph that stands for a system cursor.
pub fn x_glyph_of_system_cursor(s: SystemCursor) -> (r: u32)
    ensures
        r == x_glyph_spec(s),
{
    match s {
        SystemCursor::Arrow => XC_LEFT_PTR,
        SystemCursor::Hand => XC_HAND2,
        SystemCursor::Ibeam => XC_XTERM,
        SystemCursor::Wait => XC_WATCH,
        SystemCursor::Crosshair => XC_TCROSS,
        SystemCursor::WaitArrow => XC_WATCH,
        SystemCursor::ResizeNWToSE => XC_FLEUR,
        SystemCursor::ResizeNEToSW => XC_FLEUR,
        SystemCursor::ResizeV => XC_SB_V_DOUBLE_ARROW,
        SystemCursor::ResizeH => XC_SB_H_DOUBLE_ARROW,
        SystemCursor::ResizeHV => XC_FLEUR,
        SystemCursor::Deny => XC_PIRATE,
        SystemCursor::Question => XC_QUESTION_ARROW,
        SystemCursor::ReverseArrow => XC_RIGHT_PTR,
        SystemCursor::TopSide => XC_TOP_SIDE,
        SystemCursor::BottomSide => XC_BOTTOM_SIDE,
        SystemCursor::LeftSide => XC_LEFT_SIDE,
        SystemCursor::RightSide => XC_RIGHT_SIDE,
        SystemCursor::BottomLeftCorner => XC_BOTTOM_LEFT_CORNER,
        SystemCursor::BottomRightCorner => XC_BOTTOM_RIGHT_CORNER,
        SystemCursor::TopLeftCorner => XC_TOP_LEFT_CORNER,
        SystemCursor::TopRightCorner => XC_TOP_RIGHT_CORNER,
        SystemCursor::Pencil => XC_PENCIL,
        SystemCursor::Spraycan => XC_SPRAYCAN,
    }
}

/// The delay of an animated cursor frame, in whole milliseconds.
pub fn frame_delay_millis(duration: &Duration) -> (r: u64)
    requires
        duration@ / 1_000_000 <= u64::MAX,
    ensures
        r == duration@ / 1_000_000,
{
    let secs: u64 = duration.as_secs();
    let nanos: u32 = duration.subsec_nanos();
    proof {
        vstd::arithmetic::div_mod::lemma_fundamental_div_mod_converse_div(
            duration@ as int / 1_000_000,
            1_000,
            secs as int,
            nanos as int / 1_000_000,
        );
        vstd::arithmetic::div_mod::lemma_div_denominator(duration@ as int, 1_000_000, 1_000);
        vstd::arithmetic::div_mod::lemma_fundamental_div_mod(duration@ as int, 1_000_000_000);
    }
    secs * 1_000 + (nanos / 1_000_000) as u64
}

/// Animated cursors need the XRender extension.
pub fn check_xrender_for_cursor(has_xrender: bool, animated: bool) -> (r: Result<(), Error>)
    ensures
        has_xrender ==> r is Ok,
        !has_xrender && !animated ==> (r matches Err(e) && e.kind == ErrorKind::Failed
            && reason_view(e.reason) == Some("Creating an RGBA cursor requires the XRender extension"@)),
        !has_xrender && animated ==> (r matches Err(e) && e.kind == ErrorKind::Failed
            && reason_view(e.reason) == Some(
            "Creating an animated RGBA cursor requires the XRender extension"@,
        )),
{
    if has_xrender {
        Ok(())
    } else if animated {
        Err(
            Error::failed(
                String::from_str("Creating an animated RGBA cursor requires the XRender extension"),
            ),
        )
    } else {
        Err(Error::failed(String::from_str("Creating an RGBA cursor requires the XRender extension")))
    }
}

/// The delays, in milliseconds, of the frames of an animated cursor, in order.
pub fn frame_delays(frames: &Vec<CursorFrame>) -> (r: Vec<u64>)
    requires
        forall|i: int| 0 <= i < frames@.len() ==> #[trigger] frames@[i].duration@ / 1_000_000 <= u64::MAX,
    ensures
        r@.len() == frames@.len(),
        forall|i: int| 0 <= i < frames@.len() ==> #[trigger] r@[i] == frames@[i].duration@ / 1_000_000,
{
    let mut r: Vec<u64> = Vec::new();
    let mut i: usize = 0;
    while i < frames.len()
        invariant
            i <= frames.len(),
            r@.len() == i,
            forall|j: int| 0 <= j < frames@.len() ==> #[trigger] frames@[j].duration@ / 1_000_000 <= u64::MAX,
            forall|j: int| 0 <= j < i ==> #[trigger] r@[j] == frames@[j].duration@ / 1_000_000,
        decreases frames.len() - i,
    {
        r.push(frame_delay_millis(&frames[i].duration));
        i = i + 1;
    }
    r
}


/// The glyphs of the X11 cursor font (`X11/cursorfont.h`) that stand for the system
/// cursors: the left pointer (68) for the arrow, the second hand (60), the text cursor
/// (152), the watch (150) for waiting, the thin cross (130), the fleur (52) for diagonal
/// and all-way resizing, the double arrows for vertical (116) and horizontal (108)
/// resizing, the pirate (88) for a denial, and the sides, corners, pencil and spray can.
pub proof fn lemma_x_glyph_table()
    ensures
        x_glyph_spec(SystemCursor::Arrow) == 68,
        x_glyph_spec(SystemCursor::Hand) == 60,
        x_glyph_spec(SystemCursor::Ibeam) == 152,
        x_glyph_spec(SystemCursor::Wait) == 150,
        x_glyph_spec(SystemCursor::Crosshair) == 130,
        x_glyph_spec(SystemCursor::WaitArrow) == 150,
        x_glyph_spec(SystemCursor::ResizeNWToSE) == 52,
        x_glyph_spec(SystemCursor::ResizeNEToSW) == 52,
        x_glyph_spec(SystemCursor::ResizeV) == 116,
        x_glyph_spec(SystemCursor::ResizeH) == 108,
        x_glyph_spec(SystemCursor::ResizeHV) == 52,
        x_glyph_spec(SystemCursor::Deny) == 88,
        x_glyph_spec(SystemCursor::Question) == 92,
        x_glyph_spec(SystemCursor::ReverseArrow) == 94,
        x_glyph_spec(SystemCursor::TopSide) == 138,
        x_glyph_spec(SystemCursor::BottomSide) == 16,
        x_glyph_spec(SystemCursor::LeftSide) == 70,
        x_glyph_spec(SystemCursor::RightSide) == 96,
        x_glyph_spec(SystemCursor::BottomLeftCorner) == 12,
        x_glyph_spec(SystemCursor::BottomRightCorner) == 14,
        x_glyph_spec(SystemCursor::TopLeftCorner) == 134,
        x_glyph_spec(SystemCursor::TopRightCorner) == 136,
        x_glyph_spec(SystemCursor::Pencil) == 86,
        x_glyph_spec(SystemCursor::Spraycan) == 124,
{
}

} // verus!
