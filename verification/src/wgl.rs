//! WGL attribute lists: what is asked of `wglChoosePixelFormatARB` and
//! `wglCreateContextAttribsARB`, and how a swap interval is set on Windows.
//!
//! The constants are the values of `wglext.h`.

use vstd::prelude::*;
use crate::error::{Error, ErrorKind, reason_view};
use crate::strings::{has_token, has_token_exec};
use crate::gl::{
    GLContextResetNotificationStrategy, GLPixelFormatSettings, GLProfile, GLSwapInterval,
    GLVariant, GLVersion,
};

verus! {

pub const WGL_CONTEXT_DEBUG_BIT_ARB: i32 = 0x1;
pub const WGL_CONTEXT_FORWARD_COMPATIBLE_BIT_ARB: i32 = 0x2;
pub const WGL_CONTEXT_MAJOR_VERSION_ARB: i32 = 0x2091;
pub const WGL_CONTEXT_MINOR_VERSION_ARB: i32 = 0x2092;
pub const WGL_CONTEXT_FLAGS_ARB: i32 = 0x2094;
pub const WGL_CONTEXT_PROFILE_MASK_ARB: i32 = 0x9126;
pub const WGL_CONTEXT_CORE_PROFILE_BIT_ARB: i32 = 0x1;
pub const WGL_CONTEXT_COMPATIBILITY_PROFILE_BIT_ARB: i32 = 0x2;
pub const WGL_CONTEXT_ES_PROFILE_BIT_EXT: i32 = 0x4;
pub const WGL_CONTEXT_ROBUST_ACCESS_BIT_ARB: i32 = 0x4;
pub const WGL_LOSE_CONTEXT_ON_RESET_ARB: i32 = 0x8252;
pub const WGL_CONTEXT_RESET_NOTIFICATION_STRATEGY_ARB: i32 = 0x8256;
pub const WGL_NO_RESET_NOTIFICATION_ARB: i32 = 0x8261;
pub const WGL_SAMPLE_BUFFERS_ARB: i32 = 0x2041;
pub const WGL_SAMPLES_ARB: i32 = 0x2042;
pub const WGL_DRAW_TO_WINDOW_ARB: i32 = 0x2001;
pub const WGL_TRANSPARENT_ARB: i32 = 0x200A;
pub const WGL_SUPPORT_OPENGL_ARB: i32 = 0x2010;
pub const WGL_DOUBLE_BUFFER_ARB: i32 = 0x2011;
pub const WGL_STEREO_ARB: i32 = 0x2012;
pub const WGL_PIXEL_TYPE_ARB: i32 = 0x2013;
pub const WGL_COLOR_BITS_ARB: i32 = 0x2014;
pub const WGL_RED_BITS_ARB: i32 = 0x2015;
pub const WGL_GREEN_BITS_ARB: i32 = 0x2017;
pub const WGL_BLUE_BITS_ARB: i32 = 0x2019;
pub const WGL_ALPHA_BITS_ARB: i32 = 0x201B;
pub const WGL_ACCUM_RED_BITS_ARB: i32 = 0x201E;
pub const WGL_ACCUM_GREEN_BITS_ARB: i32 = 0x201F;
pub const WGL_ACCUM_BLUE_BITS_ARB: i32 = 0x2020;
pub const WGL_ACCUM_ALPHA_BITS_ARB: i32 = 0x2021;
pub const WGL_DEPTH_BITS_ARB: i32 = 0x2022;
pub const WGL_STENCIL_BITS_ARB: i32 = 0x2023;
pub const WGL_AUX_BUFFERS_ARB: i32 = 0x2024;
pub const WGL_TYPE_RGBA_ARB: i32 = 0x202B;
/// Win32's `TRUE`.
pub const W32_TRUE: i32 = 1;

/// The WGL extensions that are present.
#[derive(Debug, Copy, Clone, Hash, PartialEq, Eq, Default, Structural)]
pub struct WglExt {
    pub arb_create_context: bool,
    pub arb_create_context_profile: bool,
    pub arb_create_context_robustness: bool,
    pub ext_create_context_es_profile: bool,
    pub ext_create_context_es2_profile: bool,
    pub arb_multisample: bool,
    pub ext_multisample: bool,
    pub ext_pixel_format: bool,
    pub arb_pixel_format: bool,
    pub arb_pixel_format_float: bool,
    pub arb_robustness_application_isolation: bool,
    pub arb_robustness_share_group_isolation: bool,
    pub ext_swap_control: bool,
    pub ext_swap_control_tear: bool,
    pub ext_colorspace: bool,
    pub ext_framebuffer_srgb: bool,
    pub arb_framebuffer_srgb: bool,
}

impl WglExt {
    /// The extensions that WGL's extension string names, separated by spaces.
    pub fn parse(s: &str) -> (r: WglExt)
        ensures
            r.arb_create_context == has_token(s@, "WGL_ARB_create_context"@, false),
            r.arb_create_context_profile == has_token(s@, "WGL_ARB_create_context_profile"@, false),
            r.arb_create_context_robustness == has_token(s@, "WGL_ARB_create_context_robustness"@, false),
            r.ext_create_context_es_profile == has_token(s@, "WGL_EXT_create_context_es_profile"@, false),
            r.ext_create_context_es2_profile == has_token(s@, "WGL_EXT_create_context_es2_profile"@, false),
            r.arb_multisample == has_token(s@, "WGL_ARB_multisample"@, false),
            r.ext_multisample == has_token(s@, "WGL_EXT_multisample"@, false),
            r.ext_pixel_format == has_token(s@, "WGL_EXT_pixel_format"@, false),
            r.arb_pixel_format == has_token(s@, "WGL_ARB_pixel_format"@, false),
            r.arb_pixel_format_float == has_token(s@, "WGL_ARB_pixel_format_float"@, false),
            r.arb_robustness_application_isolation == has_token(s@, "WGL_ARB_robustness_application_isolation"@, false),
            r.arb_robustness_share_group_isolation == has_token(s@, "WGL_ARB_robustness_share_group_isolation"@, false),
            r.ext_swap_control == has_token(s@, "WGL_EXT_swap_control"@, false),
            r.ext_swap_control_tear == has_token(s@, "WGL_EXT_swap_control_tear"@, false),
            r.ext_colorspace == has_token(s@, "WGL_EXT_colorspace"@, false),
            r.ext_framebuffer_srgb == has_token(s@, "WGL_EXT_framebuffer_sRGB"@, false),
            r.arb_framebuffer_srgb == has_token(s@, "WGL_ARB_framebuffer_sRGB"@, false),
    {
        WglExt {
            arb_create_context: has_token_exec(s, "WGL_ARB_create_context", false),
            arb_create_context_profile: has_token_exec(s, "WGL_ARB_create_context_profile", false),
            arb_create_context_robustness: has_token_exec(s, "WGL_ARB_create_context_robustness", false),
            ext_create_context_es_profile: has_token_exec(s, "WGL_EXT_create_context_es_profile", false),
            ext_create_context_es2_profile: has_token_exec(s, "WGL_EXT_create_context_es2_profile", false),
            arb_multisample: has_token_exec(s, "WGL_ARB_multisample", false),
            ext_multisample: has_token_exec(s, "WGL_EXT_multisample", false),
            ext_pixel_format: has_token_exec(s, "WGL_EXT_pixel_format", false),
            arb_pixel_format: has_token_exec(s, "WGL_ARB_pixel_format", false),
            arb_pixel_format_float: has_token_exec(s, "WGL_ARB_pixel_format_float", false),
            arb_robustness_application_isolation: has_token_exec(s, "WGL_ARB_robustness_application_isolation", false),
            arb_robustness_share_group_isolation: has_token_exec(s, "WGL_ARB_robustness_share_group_isolation", false),
            ext_swap_control: has_token_exec(s, "WGL_EXT_swap_control", false),
            ext_swap_control_tear: has_token_exec(s, "WGL_EXT_swap_control_tear", false),
            ext_colorspace: has_token_exec(s, "WGL_EXT_colorspace", false),
            ext_framebuffer_srgb: has_token_exec(s, "WGL_EXT_framebuffer_sRGB", false),
            arb_framebuffer_srgb: has_token_exec(s, "WGL_ARB_framebuffer_sRGB", false),
        }
    }
}

/// The context flags: debug, forward-compatible, and robust access when it is asked for
/// and the robustness extension is present.
pub open spec fn wgl_flags_spec(
    debug: bool,
    forward_compatible: bool,
    robust: bool,
    ext: WglExt,
) -> i32 {
    (if debug { WGL_CONTEXT_DEBUG_BIT_ARB } else { 0i32 })
        | (if forward_compatible { WGL_CONTEXT_FORWARD_COMPATIBLE_BIT_ARB } else { 0i32 })
        | (if robust && ext.arb_create_context_robustness {
            WGL_CONTEXT_ROBUST_ACCESS_BIT_ARB
        } else {
            0i32
        })
}

/// The optional pairs of a context attribute list: the profile mask when the profile
/// extension is present (with the ES bit for an ES version when an ES profile extension
/// is present), then the reset notification strategy when robust access is asked for and
/// the robustness extension is present.
pub open spec fn wgl_context_tail(
    version: GLVersion,
    profile: GLProfile,
    robust_access: Option<GLContextResetNotificationStrategy>,
    ext: WglExt,
) -> Seq<i32> {
    let base = match profile {
        GLProfile::Core => WGL_CONTEXT_CORE_PROFILE_BIT_ARB,
        GLProfile::Compatibility => WGL_CONTEXT_COMPATIBILITY_PROFILE_BIT_ARB,
    };
    let mask = if version.variant == GLVariant::ES && (ext.ext_create_context_es_profile
        || ext.ext_create_context_es2_profile) {
        base | WGL_CONTEXT_ES_PROFILE_BIT_EXT
    } else {
        base
    };
    let profile_pair = if ext.arb_create_context_profile {
        seq![WGL_CONTEXT_PROFILE_MASK_ARB, mask]
    } else {
        Seq::empty()
    };
    let robust_pair = match robust_access {
        Some(r) => if ext.arb_create_context_robustness {
            seq![
                WGL_CONTEXT_RESET_NOTIFICATION_STRATEGY_ARB,
                match r {
                    GLContextResetNotificationStrategy::NoResetNotification => WGL_NO_RESET_NOTIFICATION_ARB,
                    GLContextResetNotificationStrategy::LoseContextOnReset => WGL_LOSE_CONTEXT_ON_RESET_ARB,
                },
            ]
        } else {
            Seq::empty()
        },
        None => Seq::empty(),
    };
    profile_pair + robust_pair
}

/// A context attribute list for `wglCreateContextAttribsARB`: the version, the flags, the
/// optional pairs, then zeros up to 11 entries.
pub open spec fn wgl_context_attribs_spec(
    version: GLVersion,
    profile: GLProfile,
    debug: bool,
    forward_compatible: bool,
    robust_access: Option<GLContextResetNotificationStrategy>,
    ext: WglExt,
) -> Seq<i32> {
    let tail = wgl_context_tail(version, profile, robust_access, ext);
    seq![
        WGL_CONTEXT_MAJOR_VERSION_ARB, version.major as i32,
        WGL_CONTEXT_MINOR_VERSION_ARB, version.minor as i32,
        WGL_CONTEXT_FLAGS_ARB, wgl_flags_spec(debug, forward_compatible, robust_access is Some, ext),
    ] + tail + Seq::new((5 - tail.len()) as nat, |i: int| 0i32)
}

fn slot(tail: &Vec<i32>, k: usize) -> (r: i32)
    ensures
        r == (if k < tail@.len() { tail@[k as int] } else { 0i32 }),
{
    if k < tail.len() {
        tail[k]
    } else {
        0
    }
}

/// The context attribute list for `wglCreateContextAttribsARB`.
pub fn gen_wgl_context_attribs(
    version: GLVersion,
    profile: GLProfile,
    debug: bool,
    forward_compatible: bool,
    robust_access: Option<GLContextResetNotificationStrategy>,
    ext: &WglExt,
) -> (r: [i32; 11])
    ensures
        r@ == wgl_context_attribs_spec(version, profile, debug, forward_compatible, robust_access, *ext),
{
    let a: i32 = if debug { WGL_CONTEXT_DEBUG_BIT_ARB } else { 0 };
    let b: i32 = if forward_compatible { WGL_CONTEXT_FORWARD_COMPATIBLE_BIT_ARB } else { 0 };
    let c: i32 = if robust_access.is_some() && ext.arb_create_context_robustness {
        WGL_CONTEXT_ROBUST_ACCESS_BIT_ARB
    } else {
        0
    };
    let flags = a | b | c;
    let mut tail: Vec<i32> = Vec::new();
    if ext.arb_create_context_profile {
        let base: i32 = match profile {
            GLProfile::Core => WGL_CONTEXT_CORE_PROFILE_BIT_ARB,
            GLProfile::Compatibility => WGL_CONTEXT_COMPATIBILITY_PROFILE_BIT_ARB,
        };
        let mask: i32 = if version.is_es() && (ext.ext_create_context_es_profile
            || ext.ext_create_context_es2_profile) {
            base | WGL_CONTEXT_ES_PROFILE_BIT_EXT
        } else {
            base
        };
        tail.push(WGL_CONTEXT_PROFILE_MASK_ARB);
        tail.push(mask);
    }
    match robust_access {
        Some(r) => {
            if ext.arb_create_context_robustness {
                tail.push(WGL_CONTEXT_RESET_NOTIFICATION_STRATEGY_ARB);
                tail.push(
                    match r {
                        GLContextResetNotificationStrategy::NoResetNotification => WGL_NO_RESET_NOTIFICATION_ARB,
                        GLContextResetNotificationStrategy::LoseContextOnReset => WGL_LOSE_CONTEXT_ON_RESET_ARB,
                    },
                );
            }
        },
        None => {},
    }
    assert(tail@ =~= wgl_context_tail(version, profile, robust_access, *ext));
    let r: [i32; 11] = [
        WGL_CONTEXT_MAJOR_VERSION_ARB, version.major as i32,
        WGL_CONTEXT_MINOR_VERSION_ARB, version.minor as i32,
        WGL_CONTEXT_FLAGS_ARB, flags,
        slot(&tail, 0), slot(&tail, 1), slot(&tail, 2), slot(&tail, 3), 0,
    ];
    assert(r@ =~= wgl_context_attribs_spec(version, profile, debug, forward_compatible, robust_access, *ext));
    r
}

/// A pixel format attribute list for `wglChoosePixelFormatARB`: a window-drawable, OpenGL,
/// RGBA format with the settings' buffers (the color bits are the sum of the red, green
/// and blue bits), then the multisampling pairs when the extension is present and some
/// buffer is asked for, then zeros up to 41 entries.
pub open spec fn wgl_pixel_format_attribs_spec(s: GLPixelFormatSettings, transparent: bool, ext: WglExt) -> Seq<
    i32,
> {
    let tail = if ext.arb_multisample && s.msaa.buffer_count > 0 {
        seq![WGL_SAMPLE_BUFFERS_ARB, s.msaa.buffer_count as i32, WGL_SAMPLES_ARB, s.msaa.sample_count as i32]
    } else {
        seq![0i32, 0i32, 0i32, 0i32]
    };
    seq![
        WGL_DRAW_TO_WINDOW_ARB, W32_TRUE,
        WGL_SUPPORT_OPENGL_ARB, W32_TRUE,
        WGL_DOUBLE_BUFFER_ARB, if s.double_buffer { 1i32 } else { 0i32 },
        WGL_STEREO_ARB, if s.stereo { 1i32 } else { 0i32 },
        WGL_TRANSPARENT_ARB, if transparent { 1i32 } else { 0i32 },
        WGL_PIXEL_TYPE_ARB, WGL_TYPE_RGBA_ARB,
        WGL_COLOR_BITS_ARB, (s.red_bits + s.green_bits + s.blue_bits) as i32,
        WGL_RED_BITS_ARB, s.red_bits as i32,
        WGL_GREEN_BITS_ARB, s.green_bits as i32,
        WGL_BLUE_BITS_ARB, s.blue_bits as i32,
        WGL_ALPHA_BITS_ARB, s.alpha_bits as i32,
        WGL_DEPTH_BITS_ARB, s.depth_bits as i32,
        WGL_STENCIL_BITS_ARB, s.stencil_bits as i32,
        WGL_ACCUM_RED_BITS_ARB, s.accum_red_bits as i32,
        WGL_ACCUM_GREEN_BITS_ARB, s.accum_green_bits as i32,
        WGL_ACCUM_BLUE_BITS_ARB, s.accum_blue_bits as i32,
        WGL_ACCUM_ALPHA_BITS_ARB, s.accum_alpha_bits as i32,
        WGL_AUX_BUFFERS_ARB, s.aux_buffers as i32,
    ] + tail + seq![0i32]
}

/// The pixel format attribute list for `wglChoosePixelFormatARB`; the red, green and blue
/// bits must add up to at most 255.
pub fn gen_wgl_pixel_format_attribs(s: &GLPixelFormatSettings, transparent: bool, ext: &WglExt) -> (r: [i32; 41])
    requires
        s.red_bits + s.green_bits + s.blue_bits <= 255,
    ensures
        r@ == wgl_pixel_format_attribs_spec(*s, transparent, *ext),
{
    let color_bits: u8 = s.red_bits + s.green_bits + s.blue_bits;
    let ms = ext.arb_multisample && s.msaa.buffer_count > 0;
    let r: [i32; 41] = [
        WGL_DRAW_TO_WINDOW_ARB, W32_TRUE,
        WGL_SUPPORT_OPENGL_ARB, W32_TRUE,
        WGL_DOUBLE_BUFFER_ARB, if s.double_buffer { 1 } else { 0 },
        WGL_STEREO_ARB, if s.stereo { 1 } else { 0 },
        WGL_TRANSPARENT_ARB, if transparent { 1 } else { 0 },
        WGL_PIXEL_TYPE_ARB, WGL_TYPE_RGBA_ARB,
        WGL_COLOR_BITS_ARB, color_bits as i32,
        WGL_RED_BITS_ARB, s.red_bits as i32,
        WGL_GREEN_BITS_ARB, s.green_bits as i32,
        WGL_BLUE_BITS_ARB, s.blue_bits as i32,
        WGL_ALPHA_BITS_ARB, s.alpha_bits as i32,
        WGL_DEPTH_BITS_ARB, s.depth_bits as i32,
        WGL_STENCIL_BITS_ARB, s.stencil_bits as i32,
        WGL_ACCUM_RED_BITS_ARB, s.accum_red_bits as i32,
        WGL_ACCUM_GREEN_BITS_ARB, s.accum_green_bits as i32,
        WGL_ACCUM_BLUE_BITS_ARB, s.accum_blue_bits as i32,
        WGL_ACCUM_ALPHA_BITS_ARB, s.accum_alpha_bits as i32,
        WGL_AUX_BUFFERS_ARB, s.aux_buffers as i32,
        if ms { WGL_SAMPLE_BUFFERS_ARB } else { 0 },
        if ms { s.msaa.buffer_count as i32 } else { 0 },
        if ms { WGL_SAMPLES_ARB } else { 0 },
        if ms { s.msaa.sample_count as i32 } else { 0 },
        0,
    ];
    assert(r@ =~= wgl_pixel_format_attribs_spec(*s, transparent, *ext));
    r
}

/// Decides the interval to give `wglSwapIntervalEXT`: late swap tearing, and negative
/// intervals, need `WGL_EXT_swap_control_tear`, and setting any interval needs
/// `WGL_EXT_swap_control`.
pub fn wgl_swap_interval(ext: &WglExt, interval: GLSwapInterval) -> (r: Result<i32, Error>)
    ensures
        match interval {
            GLSwapInterval::VSync => !ext.ext_swap_control || r == Ok::<i32, Error>(1),
            GLSwapInterval::Immediate => !ext.ext_swap_control || r == Ok::<i32, Error>(0),
            GLSwapInterval::LateSwapTearing => !ext.ext_swap_control_tear || !ext.ext_swap_control || r == Ok::<
                i32,
                Error,
            >(-1i32),
            GLSwapInterval::Interval(i) => (i < 0 && !ext.ext_swap_control_tear) || !ext.ext_swap_control || r
                == Ok::<i32, Error>(i),
        },
        ((interval is LateSwapTearing && !ext.ext_swap_control_tear) || (interval matches GLSwapInterval::Interval(i)
            && i < 0 && !ext.ext_swap_control_tear)) ==> (r matches Err(e) && e.kind == ErrorKind::Failed
            && reason_view(e.reason) == Some("Missing extension `WGL_EXT_swap_control_tear`"@)),
        !((interval is LateSwapTearing && !ext.ext_swap_control_tear) || (interval matches GLSwapInterval::Interval(i)
            && i < 0 && !ext.ext_swap_control_tear)) && !ext.ext_swap_control ==> (r matches Err(e) && e.kind
            == ErrorKind::Failed && reason_view(e.reason) == Some(
            "There's no extension that could set the swap interval!"@,
        )),
{
    let value: i32 = match interval {
        GLSwapInterval::VSync => 1,
        GLSwapInterval::Immediate => 0,
        GLSwapInterval::LateSwapTearing => {
            if !ext.ext_swap_control_tear {
                return Err(Error::failed(String::from_str("Missing extension `WGL_EXT_swap_control_tear`")));
            }
            -1
        },
        GLSwapInterval::Interval(i) => {
            if i < 0 && !ext.ext_swap_control_tear {
                return Err(Error::failed(String::from_str("Missing extension `WGL_EXT_swap_control_tear`")));
            }
            i
        },
    };
    if ext.ext_swap_control {
        Ok(value)
    } else {
        Err(Error::failed(String::from_str("There's no extension that could set the swap interval!")))
    }
}


/// In a zero-terminated list of key-value pairs, `key` stands as a key (at an even place)
/// and every value given for it is `value`.
pub open spec fn attrib_pair(l: Seq<i32>, key: i32, value: i32) -> bool {
    &&& exists|i: int| 0 <= i < l.len() - 1 && i % 2 == 0 && #[trigger] l[i] == key
    &&& forall|i: int| 0 <= i < l.len() - 1 && i % 2 == 0 && #[trigger] l[i] == key ==> l[i + 1] == value
}

/// Each key of the WGL pixel format list is followed by the setting of the same name:
/// drawing to a window and OpenGL support are asked for, double buffering, stereo and
/// transparency as set, RGBA pixels, the color bits as the sum of the red, green and blue
/// bits, then each buffer's bits and the auxiliary buffers as set; the list has 41 entries
/// and ends with 0.
pub proof fn lemma_wgl_pixel_format_pairs(s: GLPixelFormatSettings, transparent: bool, ext: WglExt)
    ensures
        ({
            let l = wgl_pixel_format_attribs_spec(s, transparent, ext);
            &&& l.len() == 41
            &&& l[40] == 0
            &&& attrib_pair(l, 0x2001, 1)
            &&& attrib_pair(l, 0x2010, 1)
            &&& attrib_pair(l, 0x2011, if s.double_buffer { 1 } else { 0 })
            &&& attrib_pair(l, 0x2012, if s.stereo { 1 } else { 0 })
            &&& attrib_pair(l, 0x200A, if transparent { 1 } else { 0 })
            &&& attrib_pair(l, 0x2013, 0x202B)
            &&& attrib_pair(l, 0x2014, (s.red_bits + s.green_bits + s.blue_bits) as i32)
            &&& attrib_pair(l, 0x2015, s.red_bits as i32)
            &&& attrib_pair(l, 0x2017, s.green_bits as i32)
            &&& attrib_pair(l, 0x2019, s.blue_bits as i32)
            &&& attrib_pair(l, 0x201B, s.alpha_bits as i32)
            &&& attrib_pair(l, 0x2022, s.depth_bits as i32)
            &&& attrib_pair(l, 0x2023, s.stencil_bits as i32)
            &&& attrib_pair(l, 0x201E, s.accum_red_bits as i32)
            &&& attrib_pair(l, 0x201F, s.accum_green_bits as i32)
            &&& attrib_pair(l, 0x2020, s.accum_blue_bits as i32)
            &&& attrib_pair(l, 0x2021, s.accum_alpha_bits as i32)
            &&& attrib_pair(l, 0x2024, s.aux_buffers as i32)
            &&& (ext.arb_multisample && s.msaa.buffer_count > 0) ==> (attrib_pair(l, 0x2041, s.msaa.buffer_count as i32)
                && attrib_pair(l, 0x2042, s.msaa.sample_count as i32))
        }),
{
    let l = wgl_pixel_format_attribs_spec(s, transparent, ext);
    assert(l[0] == 0x2001 && l[2] == 0x2010 && l[4] == 0x2011 && l[6] == 0x2012 && l[8] == 0x200A);
    assert(l[10] == 0x2013 && l[12] == 0x2014 && l[14] == 0x2015 && l[16] == 0x2017 && l[18] == 0x2019);
    assert(l[20] == 0x201B && l[22] == 0x2022 && l[24] == 0x2023 && l[26] == 0x201E && l[28] == 0x201F);
    assert(l[30] == 0x2020 && l[32] == 0x2021 && l[34] == 0x2024);
    assert(l[36] == 0 || l[36] == 0x2041);
    assert(l[38] == 0 || l[38] == 0x2042);
    if ext.arb_multisample && s.msaa.buffer_count > 0 {
        assert(l[36] == 0x2041 && l[38] == 0x2042);
    }
}


proof fn lemma_wgl_flag_bits(a: i32, b: i32, d: i32)
    requires
        a == 0 || a == 1,
        b == 0 || b == 2,
        d == 0 || d == 4,
    ensures
        a | b | d == a + b + d,
{
    assert(a | b | d == a + b + d) by (bit_vector)
        requires
            a == 0 || a == 1,
            b == 0 || b == 2,
            d == 0 || d == 4,
    ;
}

/// A `wglCreateContextAttribsARB` list asks for the given version under keys 0x2091 and
/// 0x2092, then under key 0x2094 the flags: 1 for debug, 2 for forward compatibility, 4 for
/// robust access when the robustness extension is present. With the profile extension, key
/// 0x9126 follows with the core (1) or compatibility (2) profile, plus the ES bit (4) for
/// an ES version when an ES profile extension is present. A robust context with the
/// robustness extension then asks, under key 0x8256, for no reset notification (0x8261) or
/// to lose the context on reset (0x8252). The list has 11 entries and ends with 0.
pub proof fn lemma_wgl_context_attribs_layout(
    version: GLVersion,
    profile: GLProfile,
    debug: bool,
    forward_compatible: bool,
    robust_access: Option<GLContextResetNotificationStrategy>,
    ext: WglExt,
)
    ensures
        ({
            let l = wgl_context_attribs_spec(version, profile, debug, forward_compatible, robust_access, ext);
            let r = if ext.arb_create_context_profile { 7int } else { 5int };
            let base: i32 = match profile {
                GLProfile::Core => 1,
                GLProfile::Compatibility => 2,
            };
            let es = version.variant == GLVariant::ES && (ext.ext_create_context_es_profile
                || ext.ext_create_context_es2_profile);
            &&& l.len() == 11
            &&& l[10] == 0
            &&& l[0] == 0x2091 && l[1] == version.major as i32
            &&& l[2] == 0x2092 && l[3] == version.minor as i32
            &&& l[4] == 0x2094
            &&& l[5] == (if debug { 1i32 } else { 0 }) + (if forward_compatible { 2i32 } else { 0 }) + (if robust_access is Some
                && ext.arb_create_context_robustness { 4i32 } else { 0 })
            &&& ext.arb_create_context_profile ==> (l[6] == 0x9126 && l[7] == if es { base + 4 } else { base as int })
            &&& (ext.arb_create_context_robustness && robust_access == Some(
                GLContextResetNotificationStrategy::NoResetNotification,
            )) ==> (l[r + 1] == 0x8256 && l[r + 2] == 0x8261)
            &&& (ext.arb_create_context_robustness && robust_access == Some(
                GLContextResetNotificationStrategy::LoseContextOnReset,
            )) ==> (l[r + 1] == 0x8256 && l[r + 2] == 0x8252)
            &&& !(ext.arb_create_context_robustness && robust_access is Some) ==> l[r + 1] == 0
        }),
{
    let a: i32 = if debug { 1 } else { 0 };
    let b: i32 = if forward_compatible { 2 } else { 0 };
    let d: i32 = if robust_access is Some && ext.arb_create_context_robustness { 4 } else { 0 };
    lemma_wgl_flag_bits(a, b, d);
    let base: i32 = match profile {
        GLProfile::Core => 1,
        GLProfile::Compatibility => 2,
    };
    assert(base | 4 == base + 4) by (bit_vector)
        requires
            base == 1 || base == 2,
    ;
    let l = wgl_context_attribs_spec(version, profile, debug, forward_compatible, robust_access, ext);
    let tail = wgl_context_tail(version, profile, robust_access, ext);
    assert(l[6] == tail[0] || tail.len() == 0);
}

} // verus!
