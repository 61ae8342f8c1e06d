use dmc::gl::{
    GLContextResetNotificationStrategy, GLMsaa, GLPixelFormatSettings, GLProfile, GLSwapInterval,
    GLVersion,
};
use dmc::wgl::{gen_wgl_context_attribs, gen_wgl_pixel_format_attribs, wgl_swap_interval, WglExt};
use dmc::windows::{close_item_flags, style_for_hint, TitleBarFeatures};

#[test]
fn wgl_context_attribs() {
    let ext = WglExt { arb_create_context_profile: true, arb_create_context_robustness: true, ..WglExt::default() };
    let a = gen_wgl_context_attribs(
        GLVersion::new_desktop(3, 3),
        GLProfile::Core,
        true,
        false,
        Some(GLContextResetNotificationStrategy::NoResetNotification),
        &ext,
    );
    assert_eq!(a, [0x2091, 3, 0x2092, 3, 0x2094, 5, 0x9126, 1, 0x8256, 0x8261, 0]);
    let ext2 = WglExt { arb_create_context_profile: true, ext_create_context_es2_profile: true, ..WglExt::default() };
    let a = gen_wgl_context_attribs(GLVersion::new_es(2, 0), GLProfile::Compatibility, false, true, None, &ext2);
    assert_eq!(a, [0x2091, 2, 0x2092, 0, 0x2094, 2, 0x9126, 6, 0, 0, 0]);
    let a = gen_wgl_context_attribs(
        GLVersion::new_desktop(4, 6),
        GLProfile::Core,
        false,
        false,
        Some(GLContextResetNotificationStrategy::LoseContextOnReset),
        &WglExt::default(),
    );
    assert_eq!(a, [0x2091, 4, 0x2092, 6, 0x2094, 0, 0, 0, 0, 0, 0]);
}

#[test]
fn wgl_pixel_format_attribs() {
    let s = GLPixelFormatSettings::default();
    let a = gen_wgl_pixel_format_attribs(&s, false, &WglExt::default());
    assert_eq!(&a[..14], &[0x2001, 1, 0x2010, 1, 0x2011, 1, 0x2012, 0, 0x200A, 0, 0x2013, 0x202B, 0x2014, 24]);
    assert_eq!(&a[36..], &[0, 0, 0, 0, 0]);
    let mut s2 = s;
    s2.msaa = GLMsaa { buffer_count: 1, sample_count: 8 };
    let ext = WglExt { arb_multisample: true, ..WglExt::default() };
    let a = gen_wgl_pixel_format_attribs(&s2, true, &ext);
    assert_eq!(a[9], 1);
    assert_eq!(&a[36..], &[0x2041, 1, 0x2042, 8, 0]);
}

#[test]
fn wgl_swap_intervals() {
    let ext = WglExt { ext_swap_control: true, ..WglExt::default() };
    assert_eq!(wgl_swap_interval(&ext, GLSwapInterval::VSync).unwrap(), 1);
    assert_eq!(wgl_swap_interval(&ext, GLSwapInterval::Interval(3)).unwrap(), 3);
    let e = wgl_swap_interval(&ext, GLSwapInterval::LateSwapTearing).unwrap_err();
    assert_eq!(e.reason.as_deref(), Some("Missing extension `WGL_EXT_swap_control_tear`"));
    let tear = WglExt { ext_swap_control: true, ext_swap_control_tear: true, ..WglExt::default() };
    assert_eq!(wgl_swap_interval(&tear, GLSwapInterval::Interval(-2)).unwrap(), -2);
    let e = wgl_swap_interval(&WglExt::default(), GLSwapInterval::Immediate).unwrap_err();
    assert_eq!(e.reason.as_deref(), Some("There's no extension that could set the swap interval!"));
}

#[test]
fn win32_style_hints() {
    let (s, close) = style_for_hint(0x00CF_0000, false, None);
    assert_eq!(s, 0x0000_0000 | (0x00CF_0000 & !0x0084_0000 & !0x00C0_0000));
    assert_eq!(close, None);
    let (s, close) = style_for_hint(0, true, Some(TitleBarFeatures { minimize: true, maximize: false, close: true }));
    assert_eq!(s, 0x0080_0000 | 0x0004_0000 | 0x0002_0000);
    assert_eq!(close, Some(true));
    assert_eq!(close_item_flags(true), 0);
    assert_eq!(close_item_flags(false), 3);
}

#[test]
fn wgl_extension_string_is_split_at_spaces() {
    let e = WglExt::parse("WGL_ARB_create_context WGL_EXT_swap_control\tWGL_ARB_multisample  WGL_ARB_pixel_format");
    assert!(e.arb_create_context);
    assert!(!e.ext_swap_control);
    assert!(!e.arb_multisample);
    assert!(e.arb_pixel_format);
    assert!(!e.arb_pixel_format_float);
    assert_eq!(WglExt::parse(""), WglExt::default());
}

#[test]
fn glx_extension_string_is_split_at_white_space() {
    use_glx();
}

fn use_glx() {
    let e = dmc::glx::GlxExt::parse(
        "GLX_ARB_multisample GLX_EXT_swap_control\tGLX_EXT_swap_control_tear\nGLX_ARB_create_context_profileX",
    );
    assert!(e.arb_multisample);
    assert!(e.ext_swap_control);
    assert!(e.ext_swap_control_tear);
    assert!(!e.arb_create_context_profile);
    assert!(!e.arb_create_context);
    assert!(!e.mesa_swap_control);
    let e = dmc::glx::GlxExt::parse("\u{3000}GLX_SGI_video_sync\u{a0}");
    assert!(e.sgi_video_sync);
}
