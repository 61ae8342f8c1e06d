//! GLX attribute lists: what is asked of GLX for a pixel format (before and since
//! GLX 1.3) and for a context (`glXCreateContextAttribsARB`), and how a swap interval is
//! set.
//!
//! The constants are the values of the GLX headers (`GL/glx.h`, `GL/glxext.h`).

use vstd::prelude::*;
use crate::error::{Error, ErrorKind, reason_view};
use crate::window::X11DisplayError;
use crate::wgl::attrib_pair;
use crate::strings::{has_token, has_token_exec};
use crate::gl::{
    GLContextResetNotificationStrategy, GLContextSettings, GLPixelFormatSettings, GLProfile,
    GLSwapInterval, GLVariant,
};

verus! {

pub const GLX_RGBA: i32 = 4;
pub const GLX_DOUBLEBUFFER: i32 = 5;
pub const GLX_STEREO: i32 = 6;
pub const GLX_AUX_BUFFERS: i32 = 7;
pub const GLX_RED_SIZE: i32 = 8;
pub const GLX_GREEN_SIZE: i32 = 9;
pub const GLX_BLUE_SIZE: i32 = 10;
pub const GLX_ALPHA_SIZE: i32 = 11;
pub const GLX_DEPTH_SIZE: i32 = 12;
pub const GLX_STENCIL_SIZE: i32 = 13;
pub const GLX_ACCUM_RED_SIZE: i32 = 14;
pub const GLX_ACCUM_GREEN_SIZE: i32 = 15;
pub const GLX_ACCUM_BLUE_SIZE: i32 = 16;
pub const GLX_ACCUM_ALPHA_SIZE: i32 = 17;
pub const GLX_CONFIG_CAVEAT: i32 = 0x20;
pub const GLX_X_VISUAL_TYPE: i32 = 0x22;
/// `GLX_DONT_CARE` is `0xFFFFFFFF`, that is -1 as a C `int`.
pub const GLX_DONT_CARE: i32 = -1;
pub const GLX_TRUE_COLOR: i32 = 0x8002;
pub const GLX_DRAWABLE_TYPE: i32 = 0x8010;
pub const GLX_RENDER_TYPE: i32 = 0x8011;
pub const GLX_X_RENDERABLE: i32 = 0x8012;
pub const GLX_FBCONFIG_ID: i32 = 0x8013;
pub const GLX_RGBA_BIT: i32 = 1;
pub const GLX_WINDOW_BIT: i32 = 1;
pub const GLX_SAMPLE_BUFFERS: i32 = 100000;
pub const GLX_SAMPLES: i32 = 100001;
/// Xlib's `True`.
pub const X_TRUE: i32 = 1;
pub const GLX_CONTEXT_DEBUG_BIT_ARB: i32 = 0x1;
pub const GLX_CONTEXT_FORWARD_COMPATIBLE_BIT_ARB: i32 = 0x2;
pub const GLX_CONTEXT_MAJOR_VERSION_ARB: i32 = 0x2091;
pub const GLX_CONTEXT_MINOR_VERSION_ARB: i32 = 0x2092;
pub const GLX_CONTEXT_FLAGS_ARB: i32 = 0x2094;
pub const GLX_CONTEXT_PROFILE_MASK_ARB: i32 = 0x9126;
pub const GLX_CONTEXT_CORE_PROFILE_BIT_ARB: i32 = 0x1;
pub const GLX_CONTEXT_COMPATIBILITY_PROFILE_BIT_ARB: i32 = 0x2;
pub const GLX_CONTEXT_ES_PROFILE_BIT_EXT: i32 = 0x4;
pub const GLX_CONTEXT_ROBUST_ACCESS_BIT_ARB: i32 = 0x4;
pub const GLX_CONTEXT_RESET_NOTIFICATION_STRATEGY_ARB: i32 = 0x8256;
pub const GLX_LOSE_CONTEXT_ON_RESET_ARB: i32 = 0x8252;

/// The GLX extensions that are present.
#[derive(Debug, Copy, Clone, Hash, PartialEq, Eq, Default, Structural)]
pub struct GlxExt {
    pub arb_multisample: bool,
    pub ext_swap_control: bool,
    pub ext_swap_control_tear: bool,
    pub mesa_swap_control: bool,
    pub sgi_swap_control: bool,
    pub sgi_video_sync: bool,
    pub oml_swap_method: bool,
    pub oml_sync_control: bool,
    pub arb_create_context: bool,
    pub arb_create_context_profile: bool,
    pub arb_create_context_robustness: bool,
    pub ext_create_context_es_profile: bool,
    pub ext_create_context_es2_profile: bool,
}

impl GlxExt {
    /// The extensions that GLX's extension string names, separated by white space.
    pub fn parse(s: &str) -> (r: GlxExt)
        ensures
            r.arb_multisample == has_token(s@, "GLX_ARB_multisample"@, true),
            r.ext_swap_control == has_token(s@, "GLX_EXT_swap_control"@, true),
            r.ext_swap_control_tear == has_token(s@, "GLX_EXT_swap_control_tear"@, true),
            r.mesa_swap_control == has_token(s@, "GLX_MESA_swap_control"@, true),
            r.sgi_swap_control == has_token(s@, "GLX_SGI_swap_control"@, true),
            r.sgi_video_sync == has_token(s@, "GLX_SGI_video_sync"@, true),
            r.oml_swap_method == has_token(s@, "GLX_OML_swap_method"@, true),
            r.oml_sync_control == has_token(s@, "GLX_OML_sync_control"@, true),
            r.arb_create_context == has_token(s@, "GLX_ARB_create_context"@, true),
            r.arb_create_context_profile == has_token(s@, "GLX_ARB_create_context_profile"@, true),
            r.arb_create_context_robustness == has_token(s@, "GLX_ARB_create_context_robustness"@, true),
            r.ext_create_context_es_profile == has_token(s@, "GLX_EXT_create_context_es_profile"@, true),
            r.ext_create_context_es2_profile == has_token(s@, "GLX_EXT_create_context_es2_profile"@, true),
    {
        GlxExt {
            arb_multisample: has_token_exec(s, "GLX_ARB_multisample", true),
            ext_swap_control: has_token_exec(s, "GLX_EXT_swap_control", true),
            ext_swap_control_tear: has_token_exec(s, "GLX_EXT_swap_control_tear", true),
            mesa_swap_control: has_token_exec(s, "GLX_MESA_swap_control", true),
            sgi_swap_control: has_token_exec(s, "GLX_SGI_swap_control", true),
            sgi_video_sync: has_token_exec(s, "GLX_SGI_video_sync", true),
            oml_swap_method: has_token_exec(s, "GLX_OML_swap_method", true),
            oml_sync_control: has_token_exec(s, "GLX_OML_sync_control", true),
            arb_create_context: has_token_exec(s, "GLX_ARB_create_context", true),
            arb_create_context_profile: has_token_exec(s, "GLX_ARB_create_context_profile", true),
            arb_create_context_robustness: has_token_exec(s, "GLX_ARB_create_context_robustness", true),
            ext_create_context_es_profile: has_token_exec(s, "GLX_EXT_create_context_es_profile", true),
            ext_create_context_es2_profile: has_token_exec(s, "GLX_EXT_create_context_es2_profile", true),
        }
    }
}

/// What is known of GLX on a display.
#[derive(Debug, Copy, Clone, Hash, PartialEq, Eq, Structural)]
pub struct Glx {
    pub ext: GlxExt,
}

/// The fixed part of a visual attribute list: RGBA, then each buffer size.
pub open spec fn visual_head(s: GLPixelFormatSettings) -> Seq<i32> {
    seq![
        GLX_RGBA,
        GLX_AUX_BUFFERS, s.aux_buffers as i32,
        GLX_RED_SIZE, s.red_bits as i32,
        GLX_GREEN_SIZE, s.green_bits as i32,
        GLX_BLUE_SIZE, s.blue_bits as i32,
        GLX_ALPHA_SIZE, s.alpha_bits as i32,
        GLX_DEPTH_SIZE, s.depth_bits as i32,
        GLX_STENCIL_SIZE, s.stencil_bits as i32,
        GLX_ACCUM_RED_SIZE, s.accum_red_bits as i32,
        GLX_ACCUM_GREEN_SIZE, s.accum_green_bits as i32,
        GLX_ACCUM_BLUE_SIZE, s.accum_blue_bits as i32,
        GLX_ACCUM_ALPHA_SIZE, s.accum_alpha_bits as i32,
    ]
}

/// The optional part of a visual attribute list: `GLX_DOUBLEBUFFER` and `GLX_STEREO` when
/// asked for (their presence is the boolean), then the multisampling pair when the
/// extension is present.
pub open spec fn visual_tail(s: GLPixelFormatSettings, multisample: bool) -> Seq<i32> {
    (if s.double_buffer { seq![GLX_DOUBLEBUFFER] } else { Seq::empty() })
        + (if s.stereo { seq![GLX_STEREO] } else { Seq::empty() })
        + (if multisample {
            seq![GLX_SAMPLE_BUFFERS, s.msaa.buffer_count as i32, GLX_SAMPLES, s.msaa.sample_count as i32]
        } else {
            Seq::empty()
        })
}

/// A visual attribute list for GLX below 1.3: the fixed part, the optional part, then
/// zeros up to 30 entries (so it always ends with 0).
pub open spec fn visual_attribs_spec(s: GLPixelFormatSettings, multisample: bool) -> Seq<i32> {
    let tail = visual_tail(s, multisample);
    visual_head(s) + tail + Seq::new((7 - tail.len()) as nat, |i: int| 0i32)
}

/// A frame buffer configuration attribute list for GLX 1.3 and above.
pub open spec fn fbconfig_attribs_spec(s: GLPixelFormatSettings) -> Seq<i32> {
    seq![
        GLX_FBCONFIG_ID, GLX_DONT_CARE,
        GLX_DOUBLEBUFFER, if s.double_buffer { 1i32 } else { 0i32 },
        GLX_STEREO, if s.stereo { 1i32 } else { 0i32 },
        GLX_AUX_BUFFERS, s.aux_buffers as i32,
        GLX_RED_SIZE, s.red_bits as i32,
        GLX_GREEN_SIZE, s.green_bits as i32,
        GLX_BLUE_SIZE, s.blue_bits as i32,
        GLX_ALPHA_SIZE, s.alpha_bits as i32,
        GLX_DEPTH_SIZE, s.depth_bits as i32,
        GLX_STENCIL_SIZE, s.stencil_bits as i32,
        GLX_ACCUM_RED_SIZE, s.accum_red_bits as i32,
        GLX_ACCUM_GREEN_SIZE, s.accum_green_bits as i32,
        GLX_ACCUM_BLUE_SIZE, s.accum_blue_bits as i32,
        GLX_ACCUM_ALPHA_SIZE, s.accum_alpha_bits as i32,
        GLX_RENDER_TYPE, GLX_RGBA_BIT,
        GLX_DRAWABLE_TYPE, GLX_WINDOW_BIT,
        GLX_X_VISUAL_TYPE, GLX_TRUE_COLOR,
        GLX_X_RENDERABLE, X_TRUE,
        GLX_SAMPLE_BUFFERS, s.msaa.buffer_count as i32,
        GLX_SAMPLES, s.msaa.sample_count as i32,
        GLX_CONFIG_CAVEAT, GLX_DONT_CARE,
        0i32,
    ]
}

/// The context flags: debug, forward-compatible, and robust access when it is asked for
/// and the robustness extension is present.
pub open spec fn arb_flags_spec(c: GLContextSettings, ext: GlxExt) -> i32 {
    (if c.debug { GLX_CONTEXT_DEBUG_BIT_ARB } else { 0i32 })
        | (if c.forward_compatible { GLX_CONTEXT_FORWARD_COMPATIBLE_BIT_ARB } else { 0i32 })
        | (if c.robust_access is Some && ext.arb_create_context_robustness {
            GLX_CONTEXT_ROBUST_ACCESS_BIT_ARB
        } else {
            0i32
        })
}

/// The version asked for: the given one, else desktop GL 3.0.
pub open spec fn arb_version_spec(c: GLContextSettings) -> (u8, u8, GLVariant) {
    match c.version {
        Some(v) => (v.major, v.minor, v.variant),
        None => (3, 0, GLVariant::Desktop),
    }
}

/// The profile pair, when the extension for the variant is present.
pub open spec fn arb_profile_pair(c: GLContextSettings, ext: GlxExt) -> Seq<i32> {
    let variant = arb_version_spec(c).2;
    let present = match variant {
        GLVariant::Desktop => ext.arb_create_context_profile,
        GLVariant::ES => ext.ext_create_context_es_profile,
    };
    let mask = match variant {
        GLVariant::Desktop => match c.profile {
            Some(GLProfile::Core) => GLX_CONTEXT_CORE_PROFILE_BIT_ARB,
            _ => GLX_CONTEXT_COMPATIBILITY_PROFILE_BIT_ARB,
        },
        GLVariant::ES => GLX_CONTEXT_ES_PROFILE_BIT_EXT,
    };
    if present { seq![GLX_CONTEXT_PROFILE_MASK_ARB, mask] } else { Seq::empty() }
}

/// The robustness pair, when robust access is asked for. The notification strategy
/// "no reset notification" is written with the value of the strategy's own key.
pub open spec fn arb_robust_pair(c: GLContextSettings) -> Seq<i32> {
    match c.robust_access {
        Some(GLContextResetNotificationStrategy::NoResetNotification) => seq![
            GLX_CONTEXT_RESET_NOTIFICATION_STRATEGY_ARB,
            GLX_CONTEXT_RESET_NOTIFICATION_STRATEGY_ARB,
        ],
        Some(GLContextResetNotificationStrategy::LoseContextOnReset) => seq![
            GLX_CONTEXT_RESET_NOTIFICATION_STRATEGY_ARB,
            GLX_LOSE_CONTEXT_ON_RESET_ARB,
        ],
        None => Seq::empty(),
    }
}

/// An attribute list for `glXCreateContextAttribsARB`: the version, the flags, the
/// profile pair and the robustness pair, then zeros up to 11 entries.
pub open spec fn arb_attribs_spec(c: GLContextSettings, ext: GlxExt) -> Seq<i32> {
    let (major, minor, _variant) = arb_version_spec(c);
    let tail = arb_profile_pair(c, ext) + arb_robust_pair(c);
    seq![
        GLX_CONTEXT_MAJOR_VERSION_ARB, major as i32,
        GLX_CONTEXT_MINOR_VERSION_ARB, minor as i32,
        GLX_CONTEXT_FLAGS_ARB, arb_flags_spec(c, ext),
    ] + tail + Seq::new((5 - tail.len()) as nat, |i: int| 0i32)
}

fn slot(tail: &Vec<i32>, k: usize) -> (r: i32)
    ensures
        r == (if k < tail@.len() { tail@[k as int] } else { 0i32 }),
{
    if k < tail.len() {
        tail[k]
    } else {
        0
    }
}

/// The context flags.
fn arb_flags(c: &GLContextSettings, ext: &GlxExt) -> (r: i32)
    ensures
        r == arb_flags_spec(*c, *ext),
{
    let a: i32 = if c.debug { GLX_CONTEXT_DEBUG_BIT_ARB } else { 0 };
    let b: i32 = if c.forward_compatible { GLX_CONTEXT_FORWARD_COMPATIBLE_BIT_ARB } else { 0 };
    let d: i32 = if c.robust_access.is_some() && ext.arb_create_context_robustness {
        GLX_CONTEXT_ROBUST_ACCESS_BIT_ARB
    } else {
        0
    };
    a | b | d
}

impl Glx {
    /// The visual attribute list for GLX below 1.3.
    pub fn gen_visual_attribs(&self, settings: &GLPixelFormatSettings) -> (r: [i32; 30])
        ensures
            r@ == visual_attribs_spec(*settings, self.ext.arb_multisample),
    {
        let s = settings;
        let mut tail: Vec<i32> = Vec::new();
        if s.double_buffer {
            tail.push(GLX_DOUBLEBUFFER);
        }
        if s.stereo {
            tail.push(GLX_STEREO);
        }
        if self.ext.arb_multisample {
            tail.push(GLX_SAMPLE_BUFFERS);
            tail.push(s.msaa.buffer_count as i32);
            tail.push(GLX_SAMPLES);
            tail.push(s.msaa.sample_count as i32);
        }
        assert(tail@ =~= visual_tail(*s, self.ext.arb_multisample));
        let r: [i32; 30] = [
            GLX_RGBA,
            GLX_AUX_BUFFERS, s.aux_buffers as i32,
            GLX_RED_SIZE, s.red_bits as i32,
            GLX_GREEN_SIZE, s.green_bits as i32,
            GLX_BLUE_SIZE, s.blue_bits as i32,
            GLX_ALPHA_SIZE, s.alpha_bits as i32,
            GLX_DEPTH_SIZE, s.depth_bits as i32,
            GLX_STENCIL_SIZE, s.stencil_bits as i32,
            GLX_ACCUM_RED_SIZE, s.accum_red_bits as i32,
            GLX_ACCUM_GREEN_SIZE, s.accum_green_bits as i32,
            GLX_ACCUM_BLUE_SIZE, s.accum_blue_bits as i32,
            GLX_ACCUM_ALPHA_SIZE, s.accum_alpha_bits as i32,
            slot(&tail, 0), slot(&tail, 1), slot(&tail, 2), slot(&tail, 3), slot(&tail, 4),
            slot(&tail, 5), 0,
        ];
        assert(r@ =~= visual_attribs_spec(*s, self.ext.arb_multisample));
        r
    }

    /// The frame buffer configuration attribute list for GLX 1.3 and above.
    pub fn gen_fbconfig_attribs(&self, settings: &GLPixelFormatSettings) -> (r: [i32; 43])
        ensures
            r@ == fbconfig_attribs_spec(*settings),
    {
        let s = settings;
        let r: [i32; 43] = [
            GLX_FBCONFIG_ID, GLX_DONT_CARE,
            GLX_DOUBLEBUFFER, if s.double_buffer { 1 } else { 0 },
            GLX_STEREO, if s.stereo { 1 } else { 0 },
            GLX_AUX_BUFFERS, s.aux_buffers as i32,
            GLX_RED_SIZE, s.red_bits as i32,
            GLX_GREEN_SIZE, s.green_bits as i32,
            GLX_BLUE_SIZE, s.blue_bits as i32,
            GLX_ALPHA_SIZE, s.alpha_bits as i32,
            GLX_DEPTH_SIZE, s.depth_bits as i32,
            GLX_STENCIL_SIZE, s.stencil_bits as i32,
            GLX_ACCUM_RED_SIZE, s.accum_red_bits as i32,
            GLX_ACCUM_GREEN_SIZE, s.accum_green_bits as i32,
            GLX_ACCUM_BLUE_SIZE, s.accum_blue_bits as i32,
            GLX_ACCUM_ALPHA_SIZE, s.accum_alpha_bits as i32,
            GLX_RENDER_TYPE, GLX_RGBA_BIT,
            GLX_DRAWABLE_TYPE, GLX_WINDOW_BIT,
            GLX_X_VISUAL_TYPE, GLX_TRUE_COLOR,
            GLX_X_RENDERABLE, X_TRUE,
            GLX_SAMPLE_BUFFERS, s.msaa.buffer_count as i32,
            GLX_SAMPLES, s.msaa.sample_count as i32,
            GLX_CONFIG_CAVEAT, GLX_DONT_CARE,
            0,
        ];
        assert(r@ =~= fbconfig_attribs_spec(*s));
        r
    }

    /// The attribute list for `glXCreateContextAttribsARB`.
    pub fn gen_arb_attribs(&self, settings: &GLContextSettings) -> (r: [i32; 11])
        ensures
            r@ == arb_attribs_spec(*settings, self.ext),
    {
        let c = settings;
        let (major, minor, variant) = match c.version {
            Some(v) => (v.major, v.minor, v.variant),
            None => (3u8, 0u8, GLVariant::Desktop),
        };
        let flags = arb_flags(c, &self.ext);
        let present = match variant {
            GLVariant::Desktop => self.ext.arb_create_context_profile,
            GLVariant::ES => self.ext.ext_create_context_es_profile,
        };
        let mask: i32 = match variant {
            GLVariant::Desktop => match c.profile {
                Some(GLProfile::Core) => GLX_CONTEXT_CORE_PROFILE_BIT_ARB,
                _ => GLX_CONTEXT_COMPATIBILITY_PROFILE_BIT_ARB,
            },
            GLVariant::ES => GLX_CONTEXT_ES_PROFILE_BIT_EXT,
        };
        let mut tail: Vec<i32> = Vec::new();
        if present {
            tail.push(GLX_CONTEXT_PROFILE_MASK_ARB);
            tail.push(mask);
        }
        match c.robust_access {
            Some(GLContextResetNotificationStrategy::NoResetNotification) => {
                tail.push(GLX_CONTEXT_RESET_NOTIFICATION_STRATEGY_ARB);
                tail.push(GLX_CONTEXT_RESET_NOTIFICATION_STRATEGY_ARB);
            },
            Some(GLContextResetNotificationStrategy::LoseContextOnReset) => {
                tail.push(GLX_CONTEXT_RESET_NOTIFICATION_STRATEGY_ARB);
                tail.push(GLX_LOSE_CONTEXT_ON_RESET_ARB);
            },
            None => {},
        }
        assert(tail@ =~= arb_profile_pair(*c, self.ext) + arb_robust_pair(*c));
        let r: [i32; 11] = [
            GLX_CONTEXT_MAJOR_VERSION_ARB, major as i32,
            GLX_CONTEXT_MINOR_VERSION_ARB, minor as i32,
            GLX_CONTEXT_FLAGS_ARB, flags,
            slot(&tail, 0), slot(&tail, 1), slot(&tail, 2), slot(&tail, 3), 0,
        ];
        assert(r@ =~= arb_attribs_spec(*c, self.ext));
        r
    }
}

/// The GLX function that sets the swap interval, with the interval it is given.
#[derive(Debug, Copy, Clone, Hash, PartialEq, Eq, Structural)]
pub enum SwapIntervalCall {
    /// `glXSwapIntervalEXT`, on the window's GLX drawable.
    Ext(i32),
    /// `glXSwapIntervalMESA`.
    Mesa(i32),
    /// `glXSwapIntervalSGI`.
    Sgi(i32),
}

/// The interval value for GLX, if the extensions allow it: late swap tearing, and
/// negative intervals, need `GLX_EXT_swap_control_tear`.
pub open spec fn swap_interval_value(interval: GLSwapInterval, tear: bool) -> Option<i32> {
    match interval {
        GLSwapInterval::VSync => Some(1i32),
        GLSwapInterval::Immediate => Some(0i32),
        GLSwapInterval::LateSwapTearing => if tear { Some(-1i32) } else { None },
        GLSwapInterval::Interval(i) => if i < 0 && !tear { None } else { Some(i) },
    }
}

/// Decides how to set the swap interval of a window: without GLX it fails; an interval
/// that the extensions cannot express fails; else the first present extension among
/// `GLX_EXT_swap_control` (only for a window with a GLX drawable),
/// `GLX_MESA_swap_control` and `GLX_SGI_swap_control` is used, and without any of them
/// it fails.
pub fn set_gl_swap_interval(glx: Option<&Glx>, has_glx_window: bool, interval: GLSwapInterval) -> (r:
    Result<SwapIntervalCall, Error>)
    ensures
        glx is None ==> (r matches Err(e) && e.kind == ErrorKind::Failed && reason_view(e.reason)
            == Some("GLX is not supported!"@)),
        glx matches Some(g) ==> match swap_interval_value(interval, g.ext.ext_swap_control_tear) {
            None => r matches Err(e) && e.kind == ErrorKind::Failed && reason_view(e.reason) == Some(
                "Late swap tearing requires GLX_EXT_swap_control_tear"@,
            ),
            Some(v) => if g.ext.ext_swap_control && has_glx_window {
                r == Ok::<SwapIntervalCall, Error>(SwapIntervalCall::Ext(v))
            } else if g.ext.mesa_swap_control {
                r == Ok::<SwapIntervalCall, Error>(SwapIntervalCall::Mesa(v))
            } else if g.ext.sgi_swap_control {
                r == Ok::<SwapIntervalCall, Error>(SwapIntervalCall::Sgi(v))
            } else {
                r matches Err(e) && e.kind == ErrorKind::Failed && reason_view(e.reason) == Some(
                    "No GLX extension that could set the swap interval is present"@,
                )
            },
        },
{
    let glx = match glx {
        None => return Err(Error::failed(String::from_str("GLX is not supported!"))),
        Some(g) => g,
    };
    let tear = glx.ext.ext_swap_control_tear;
    let value: i32 = match interval {
        GLSwapInterval::VSync => 1,
        GLSwapInterval::Immediate => 0,
        GLSwapInterval::LateSwapTearing => {
            if !tear {
                return Err(
                    Error::failed(String::from_str("Late swap tearing requires GLX_EXT_swap_control_tear")),
                );
            }
            -1
        },
        GLSwapInterval::Interval(i) => {
            if i < 0 && !tear {
                return Err(
                    Error::failed(String::from_str("Late swap tearing requires GLX_EXT_swap_control_tear")),
                );
            }
            i
        },
    };
    if glx.ext.ext_swap_control && has_glx_window {
        Ok(SwapIntervalCall::Ext(value))
    } else if glx.ext.mesa_swap_control {
        Ok(SwapIntervalCall::Mesa(value))
    } else if glx.ext.sgi_swap_control {
        Ok(SwapIntervalCall::Sgi(value))
    } else {
        Err(Error::failed(String::from_str("No GLX extension that could set the swap interval is present")))
    }
}

/// GLX 1.3 brought frame buffer configurations; before it, a pixel format is a visual.
pub open spec fn glx_below_1_3(major: u32, minor: u32) -> bool {
    major < 1 || (major == 1 && minor < 3)
}

/// What is asked of GLX for a pixel format.
#[derive(Debug, Copy, Clone, PartialEq, Eq)]
pub enum PixelFormatRequest {
    /// Before GLX 1.3: `glXChooseVisual` with this attribute list.
    ChooseVisual([i32; 30]),
    /// Since GLX 1.3: `glXChooseFBConfig` with this attribute list.
    ChooseFbConfig([i32; 43]),
}

/// Decides what to ask GLX for a pixel format: without GLX it fails; before GLX 1.3 a
/// visual is asked for, since then a list of frame buffer configurations.
pub fn choose_gl_pixel_format_request(
    glx: Option<&Glx>,
    version_major: u32,
    version_minor: u32,
    settings: &GLPixelFormatSettings,
) -> (r: Result<PixelFormatRequest, Error>)
    ensures
        glx is None ==> (r matches Err(e) && e.kind == ErrorKind::Failed && reason_view(e.reason)
            == Some("The GLX extension is not present"@)),
        glx matches Some(g) ==> if glx_below_1_3(version_major, version_minor) {
            r matches Ok(PixelFormatRequest::ChooseVisual(a)) && a@ == visual_attribs_spec(
                *settings,
                g.ext.arb_multisample,
            )
        } else {
            r matches Ok(PixelFormatRequest::ChooseFbConfig(a)) && a@ == fbconfig_attribs_spec(*settings)
        },
{
    let glx = match glx {
        None => return Err(Error::failed(String::from_str("The GLX extension is not present"))),
        Some(g) => g,
    };
    if version_major < 1 || (version_major == 1 && version_minor < 3) {
        Ok(PixelFormatRequest::ChooseVisual(glx.gen_visual_attribs(settings)))
    } else {
        Ok(PixelFormatRequest::ChooseFbConfig(glx.gen_fbconfig_attribs(settings)))
    }
}

/// The answer to `glXChooseVisual`, before GLX 1.3: a visual was found, or it fails.
pub fn chosen_visual_outcome(found: bool) -> (r: Result<(), Error>)
    ensures
        found ==> r is Ok,
        !found ==> (r matches Err(e) && e.kind == ErrorKind::Failed && reason_view(e.reason) == Some(
            "glXChooseVisual() failed"@,
        )),
{
    if found {
        Ok(())
    } else {
        Err(Error::failed(String::from_str("glXChooseVisual() failed")))
    }
}

/// What GLX tells of a candidate frame buffer configuration.
#[derive(Debug, Copy, Clone, Hash, PartialEq, Eq, Structural)]
pub struct FbConfigAttribs {
    /// Whether it has an X visual (`glXGetVisualFromFBConfig`).
    pub has_visual: bool,
    /// `GLX_SAMPLE_BUFFERS`.
    pub sample_buffers: i32,
    /// `GLX_SAMPLES`.
    pub samples: i32,
    /// `GLX_DOUBLEBUFFER`.
    pub double_buffer: bool,
    /// `GLX_STEREO`.
    pub stereo: bool,
}

/// A candidate suits the settings when it has a visual, exactly the multisampling asked
/// for, and a `GLX_STEREO` attribute equal to the double-buffering setting (the attribute
/// that the choice reads for double buffering is `GLX_STEREO`'s).
pub open spec fn fbconfig_suits(c: FbConfigAttribs, s: GLPixelFormatSettings) -> bool {
    &&& c.has_visual
    &&& c.sample_buffers == s.msaa.buffer_count as i32
    &&& c.samples == s.msaa.sample_count as i32
    &&& c.stereo == s.double_buffer
}

/// The candidate chosen among those GLX sorted: the first that suits the settings, else the
/// first of all.
pub open spec fn is_chosen_fbconfig(cands: Seq<FbConfigAttribs>, s: GLPixelFormatSettings, r: int) -> bool {
    &&& 0 <= r < cands.len()
    &&& (exists|i: int| 0 <= i < cands.len() && #[trigger] fbconfig_suits(cands[i], s)) ==> {
        &&& fbconfig_suits(cands[r], s)
        &&& forall|j: int| 0 <= j < r ==> !#[trigger] fbconfig_suits(cands[j], s)
    }
    &&& !(exists|i: int| 0 <= i < cands.len() && #[trigger] fbconfig_suits(cands[i], s)) ==> r == 0
}

fn fbconfig_suits_exec(c: &FbConfigAttribs, s: &GLPixelFormatSettings) -> (r: bool)
    ensures
        r == fbconfig_suits(*c, *s),
{
    c.has_visual && c.sample_buffers == s.msaa.buffer_count as i32 && c.samples == s.msaa.sample_count
        as i32 && c.stereo == s.double_buffer
}

/// Chooses among the frame buffer configurations that GLX sorted: the first that suits
/// the settings, else the first of all.
pub fn choose_fbconfig(cands: &Vec<FbConfigAttribs>, s: &GLPixelFormatSettings) -> (r: usize)
    requires
        cands.len() > 0,
    ensures
        is_chosen_fbconfig(cands@, *s, r as int),
{
    let mut i: usize = 0;
    while i < cands.len()
        invariant
            i <= cands.len(),
            forall|j: int| 0 <= j < i ==> !#[trigger] fbconfig_suits(cands@[j], *s),
        decreases cands.len() - i,
    {
        if fbconfig_suits_exec(&cands[i], s) {
            return i;
        }
        i = i + 1;
    }
    0
}

/// The choice among the candidates that GLX sorted: when some candidate has a visual,
/// exactly the sample buffers and the samples asked for, and a `GLX_STEREO` attribute equal
/// to the double-buffering setting, the chosen one is the first such; when none does, it is
/// the first of all.
pub proof fn lemma_fbconfig_choice(cands: Seq<FbConfigAttribs>, s: GLPixelFormatSettings, r: int)
    requires
        is_chosen_fbconfig(cands, s, r),
    ensures
        0 <= r < cands.len(),
        (exists|i: int|
            0 <= i < cands.len() && (#[trigger] cands[i]).has_visual && cands[i].sample_buffers
                == s.msaa.buffer_count as i32 && cands[i].samples == s.msaa.sample_count as i32
                && cands[i].stereo == s.double_buffer) ==> {
            &&& cands[r].has_visual
            &&& cands[r].sample_buffers == s.msaa.buffer_count as i32
            &&& cands[r].samples == s.msaa.sample_count as i32
            &&& cands[r].stereo == s.double_buffer
            &&& forall|j: int|
                0 <= j < r ==> !((#[trigger] cands[j]).has_visual && cands[j].sample_buffers
                    == s.msaa.buffer_count as i32 && cands[j].samples == s.msaa.sample_count as i32
                    && cands[j].stereo == s.double_buffer)
        },
        !(exists|i: int|
            0 <= i < cands.len() && (#[trigger] cands[i]).has_visual && cands[i].sample_buffers
                == s.msaa.buffer_count as i32 && cands[i].samples == s.msaa.sample_count as i32
                && cands[i].stereo == s.double_buffer) ==> r == 0,
{
    if exists|i: int|
        0 <= i < cands.len() && (#[trigger] cands[i]).has_visual && cands[i].sample_buffers
            == s.msaa.buffer_count as i32 && cands[i].samples == s.msaa.sample_count as i32
            && cands[i].stereo == s.double_buffer {
        let i = choose|i: int|
            0 <= i < cands.len() && (#[trigger] cands[i]).has_visual && cands[i].sample_buffers
                == s.msaa.buffer_count as i32 && cands[i].samples == s.msaa.sample_count as i32
                && cands[i].stereo == s.double_buffer;
        assert(fbconfig_suits(cands[i], s));
        assert forall|j: int|
            0 <= j < r implies !((#[trigger] cands[j]).has_visual && cands[j].sample_buffers
                == s.msaa.buffer_count as i32 && cands[j].samples == s.msaa.sample_count as i32
                && cands[j].stereo == s.double_buffer) by {
            assert(!fbconfig_suits(cands[j], s));
        }
    } else {
        assert forall|i: int| 0 <= i < cands.len() implies !#[trigger] fbconfig_suits(cands[i], s) by {
        }
    }
}

/// Can the chosen candidate be used? It needs a visual.
pub open spec fn fbconfig_choice_usable(cands: Seq<FbConfigAttribs>, s: GLPixelFormatSettings) -> bool {
    cands.len() > 0 && !(exists|i: int| 0 <= i < cands.len() && #[trigger] fbconfig_suits(cands[i], s))
        ==> cands[0].has_visual
}

/// The answer to `glXChooseFBConfig`, since GLX 1.3: without candidates it fails; else the
/// index of the chosen one.
pub fn chosen_fbconfig_outcome(cands: &Vec<FbConfigAttribs>, s: &GLPixelFormatSettings) -> (r: Result<
    usize,
    Error,
>)
    requires
        fbconfig_choice_usable(cands@, *s),
    ensures
        cands.len() == 0 ==> (r matches Err(e) && e.kind == ErrorKind::Failed && reason_view(e.reason)
            == Some("No matching FBConfig was found!"@)),
        cands.len() > 0 ==> (r matches Ok(i) && is_chosen_fbconfig(cands@, *s, i as int)
            && cands@[i as int].has_visual),
{
    if cands.len() == 0 {
        return Err(Error::failed(String::from_str("No matching FBConfig was found!")));
    }
    let i = choose_fbconfig(cands, s);
    Ok(i)
}

/// Decides what the display backend asks GLX for a pixel format: as
/// `choose_gl_pixel_format_request`, with the backend's own error without GLX.
pub fn display_pixel_format_request(
    glx: Option<&Glx>,
    version_major: u32,
    version_minor: u32,
    settings: &GLPixelFormatSettings,
) -> (r: Result<PixelFormatRequest, X11DisplayError>)
    ensures
        glx is None ==> r == Err::<PixelFormatRequest, X11DisplayError>(X11DisplayError::NoGLX),
        glx matches Some(g) ==> if glx_below_1_3(version_major, version_minor) {
            r matches Ok(PixelFormatRequest::ChooseVisual(a)) && a@ == visual_attribs_spec(
                *settings,
                g.ext.arb_multisample,
            )
        } else {
            r matches Ok(PixelFormatRequest::ChooseFbConfig(a)) && a@ == fbconfig_attribs_spec(*settings)
        },
{
    let glx = match glx {
        None => return Err(X11DisplayError::NoGLX),
        Some(g) => g,
    };
    if version_major < 1 || (version_major == 1 && version_minor < 3) {
        Ok(PixelFormatRequest::ChooseVisual(glx.gen_visual_attribs(settings)))
    } else {
        Ok(PixelFormatRequest::ChooseFbConfig(glx.gen_fbconfig_attribs(settings)))
    }
}

/// The answer to `glXChooseVisual`, for the display backend.
pub fn display_chosen_visual_outcome(found: bool) -> (r: Result<(), X11DisplayError>)
    ensures
        r == if found {
            Ok::<(), X11DisplayError>(())
        } else {
            Err(X11DisplayError::UnsupportedGLContextSettings)
        },
{
    if found {
        Ok(())
    } else {
        Err(X11DisplayError::UnsupportedGLContextSettings)
    }
}

/// The answer to `glXChooseFBConfig`, for the display backend: without candidates the
/// settings are unsupported; else the index of the chosen one.
pub fn display_chosen_fbconfig_outcome(cands: &Vec<FbConfigAttribs>, s: &GLPixelFormatSettings) -> (r:
    Result<usize, X11DisplayError>)
    requires
        fbconfig_choice_usable(cands@, *s),
    ensures
        cands.len() == 0 ==> r == Err::<usize, X11DisplayError>(X11DisplayError::UnsupportedGLContextSettings),
        cands.len() > 0 ==> (r matches Ok(i) && is_chosen_fbconfig(cands@, *s, i as int)
            && cands@[i as int].has_visual),
{
    if cands.len() == 0 {
        return Err(X11DisplayError::UnsupportedGLContextSettings);
    }
    Ok(choose_fbconfig(cands, s))
}

/// The attribute lists are zero-terminated arrays of fixed length: 30 entries for a
/// visual, 43 for a frame buffer configuration and 11 for a context, the last being 0.
pub proof fn lemma_attrib_lists_are_zero_terminated(
    s: GLPixelFormatSettings,
    multisample: bool,
    c: GLContextSettings,
    ext: GlxExt,
)
    ensures
        visual_attribs_spec(s, multisample).len() == 30,
        visual_attribs_spec(s, multisample)[29] == 0,
        fbconfig_attribs_spec(s).len() == 43,
        fbconfig_attribs_spec(s)[42] == 0,
        arb_attribs_spec(c, ext).len() == 11,
        arb_attribs_spec(c, ext)[10] == 0,
{
}


/// Each key of the GLX 1.3 frame buffer configuration list is followed by the setting of
/// the same name: any configuration identifier and caveat, double buffering and stereo as
/// set, each buffer's size, RGBA rendering to a window with a true color X visual, and
/// exactly the multisampling asked for; the list has 43 entries and ends with 0.
pub proof fn lemma_fbconfig_attrib_pairs(s: GLPixelFormatSettings)
    ensures
        ({
            let l = fbconfig_attribs_spec(s);
            &&& l.len() == 43
            &&& l[42] == 0
            &&& attrib_pair(l, 0x8013, -1i32)
            &&& attrib_pair(l, 5, if s.double_buffer { 1 } else { 0 })
            &&& attrib_pair(l, 6, if s.stereo { 1 } else { 0 })
            &&& attrib_pair(l, 7, s.aux_buffers as i32)
            &&& attrib_pair(l, 8, s.red_bits as i32)
            &&& attrib_pair(l, 9, s.green_bits as i32)
            &&& attrib_pair(l, 10, s.blue_bits as i32)
            &&& attrib_pair(l, 11, s.alpha_bits as i32)
            &&& attrib_pair(l, 12, s.depth_bits as i32)
            &&& attrib_pair(l, 13, s.stencil_bits as i32)
            &&& attrib_pair(l, 14, s.accum_red_bits as i32)
            &&& attrib_pair(l, 15, s.accum_green_bits as i32)
            &&& attrib_pair(l, 16, s.accum_blue_bits as i32)
            &&& attrib_pair(l, 17, s.accum_alpha_bits as i32)
            &&& attrib_pair(l, 0x8011, 1)
            &&& attrib_pair(l, 0x8010, 1)
            &&& attrib_pair(l, 0x22, 0x8002)
            &&& attrib_pair(l, 0x8012, 1)
            &&& attrib_pair(l, 100000, s.msaa.buffer_count as i32)
            &&& attrib_pair(l, 100001, s.msaa.sample_count as i32)
            &&& attrib_pair(l, 0x20, -1i32)
        }),
{
}

/// A GLX visual list starts with `GLX_RGBA` (4), then gives each buffer's size after its
/// key: auxiliary buffers (7), red (8), green (9), blue (10), alpha (11), depth (12),
/// stencil (13) and the four accumulation sizes (14 to 17); it has 30 entries and ends
/// with 0, and asks for double buffering (5) exactly when it is set.
pub proof fn lemma_visual_attribs_layout(s: GLPixelFormatSettings, multisample: bool)
    ensures
        ({
            let l = visual_attribs_spec(s, multisample);
            &&& l.len() == 30
            &&& l[29] == 0
            &&& l[0] == 4
            &&& l[1] == 7 && l[2] == s.aux_buffers as i32
            &&& l[3] == 8 && l[4] == s.red_bits as i32
            &&& l[5] == 9 && l[6] == s.green_bits as i32
            &&& l[7] == 10 && l[8] == s.blue_bits as i32
            &&& l[9] == 11 && l[10] == s.alpha_bits as i32
            &&& l[11] == 12 && l[12] == s.depth_bits as i32
            &&& l[13] == 13 && l[14] == s.stencil_bits as i32
            &&& l[15] == 14 && l[16] == s.accum_red_bits as i32
            &&& l[17] == 15 && l[18] == s.accum_green_bits as i32
            &&& l[19] == 16 && l[20] == s.accum_blue_bits as i32
            &&& l[21] == 17 && l[22] == s.accum_alpha_bits as i32
            &&& (l[23] == 5 <==> s.double_buffer)
        }),
{
    let l = visual_attribs_spec(s, multisample);
    let tail = visual_tail(s, multisample);
    assert(l[23] == tail[0] || tail.len() == 0);
    if tail.len() == 0 {
        assert(l[23] == 0);
    }
}


/// Three flag bits, each 0 or its own bit, combined with `|`, add up.
proof fn lemma_flag_bits(a: i32, b: i32, d: i32)
    requires
        a == 0 || a == 1,
        b == 0 || b == 2,
        d == 0 || d == 4,
    ensures
        a | b | d == a + b + d,
{
    assert(a | b | d == a + b + d) by (bit_vector)
        requires
            a == 0 || a == 1,
            b == 0 || b == 2,
            d == 0 || d == 4,
    ;
}

/// A `glXCreateContextAttribsARB` list asks for the version given (desktop 3.0 without
/// one) under keys 0x2091 and 0x2092, then under key 0x2094 the flags: 1 for debug, 2 for
/// forward compatibility, 4 for robust access when the robustness extension is present.
/// When the profile extension of the version's kind is present, key 0x9126 follows with
/// the core (1) or compatibility (2) profile for desktop GL, or the ES profile (4); a
/// robust context then asks, under key 0x8256, to lose the context on reset (0x8252) or
/// gives that same key as its strategy. The list has 11 entries and ends with 0.
pub proof fn lemma_arb_attribs_layout(c: GLContextSettings, ext: GlxExt)
    ensures
        ({
            let l = arb_attribs_spec(c, ext);
            let (major, minor, variant) = match c.version {
                Some(v) => (v.major, v.minor, v.variant),
                None => (3u8, 0u8, GLVariant::Desktop),
            };
            let profile_present = match variant {
                GLVariant::Desktop => ext.arb_create_context_profile,
                GLVariant::ES => ext.ext_create_context_es_profile,
            };
            let r = if profile_present { 7int } else { 5int };
            &&& l.len() == 11
            &&& l[10] == 0
            &&& l[0] == 0x2091 && l[1] == major as i32
            &&& l[2] == 0x2092 && l[3] == minor as i32
            &&& l[4] == 0x2094
            &&& l[5] == (if c.debug { 1i32 } else { 0 }) + (if c.forward_compatible { 2i32 } else { 0 }) + (if c.robust_access is Some
                && ext.arb_create_context_robustness { 4i32 } else { 0 })
            &&& profile_present ==> (l[6] == 0x9126 && l[7] == match variant {
                GLVariant::Desktop => if c.profile == Some(GLProfile::Core) { 1i32 } else { 2i32 },
                GLVariant::ES => 4i32,
            })
            &&& c.robust_access == Some(GLContextResetNotificationStrategy::LoseContextOnReset) ==> (l[r + 1] == 0x8256 && l[r + 2] == 0x8252)
            &&& c.robust_access == Some(GLContextResetNotificationStrategy::NoResetNotification) ==> (l[r + 1] == 0x8256 && l[r + 2] == 0x8256)
            &&& c.robust_access is None ==> l[r + 1] == 0
        }),
{
    let a: i32 = if c.debug { 1 } else { 0 };
    let b: i32 = if c.forward_compatible { 2 } else { 0 };
    let d: i32 = if c.robust_access is Some && ext.arb_create_context_robustness { 4 } else { 0 };
    lemma_flag_bits(a, b, d);
    let l = arb_attribs_spec(c, ext);
    let tail = arb_profile_pair(c, ext) + arb_robust_pair(c);
    assert(l[6] == tail[0] || tail.len() == 0);
}

} // verus!
