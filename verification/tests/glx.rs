use dmc::error::ErrorKind;
use dmc::gl::{
    GLContextResetNotificationStrategy, GLContextSettings, GLMsaa, GLPixelFormatSettings,
    GLProfile, GLSwapInterval, GLVariant, GLVersion,
};
use dmc::glx::{
    choose_fbconfig, choose_gl_pixel_format_request, chosen_fbconfig_outcome, chosen_visual_outcome,
    set_gl_swap_interval, FbConfigAttribs, Glx, GlxExt, PixelFormatRequest, SwapIntervalCall,
};

#[test]
fn gl_defaults() {
    let p = GLPixelFormatSettings::default();
    assert_eq!(p.depth_bits, 24);
    assert_eq!(p.stencil_bits, 8);
    assert!(p.double_buffer);
    assert!(!p.stereo);
    assert_eq!((p.red_bits, p.green_bits, p.blue_bits, p.alpha_bits), (8, 8, 8, 8));
    assert_eq!(p.msaa, GLMsaa { buffer_count: 0, sample_count: 0 });
    let c = GLContextSettings::default();
    assert_eq!(c.version, None);
    assert_eq!(c.profile, None);
    assert!(c.debug && c.forward_compatible);
    assert_eq!(c.robust_access, None);
    assert_eq!(GLProfile::default(), GLProfile::Compatibility);
    assert_eq!(GLSwapInterval::default(), GLSwapInterval::VSync);
}

#[test]
fn gl_versions() {
    let v = GLVersion::new_desktop(4, 5);
    assert!(v.is_desktop() && !v.is_es());
    assert_eq!((v.major, v.minor), (4, 5));
    let v = GLVersion::new_es(3, 0);
    assert!(v.is_es() && !v.is_desktop());
    assert!(GLVariant::ES.is_es());
    assert!(GLVariant::Desktop.is_desktop());
}

#[test]
fn visual_attribs_for_default_settings() {
    let glx = Glx { ext: GlxExt::default() };
    let a = glx.gen_visual_attribs(&GLPixelFormatSettings::default());
    assert_eq!(
        a,
        [4, 7, 0, 8, 8, 9, 8, 10, 8, 11, 8, 12, 24, 13, 8, 14, 0, 15, 0, 16, 0, 17, 0, 5, 0, 0, 0, 0, 0, 0]
    );
}

#[test]
fn visual_attribs_with_stereo_and_multisampling() {
    let glx = Glx { ext: GlxExt { arb_multisample: true, ..GlxExt::default() } };
    let mut s = GLPixelFormatSettings::default();
    s.stereo = true;
    s.msaa = GLMsaa { buffer_count: 1, sample_count: 4 };
    let a = glx.gen_visual_attribs(&s);
    assert_eq!(&a[23..], &[5, 6, 100000, 1, 100001, 4, 0]);
    s.double_buffer = false;
    s.stereo = false;
    let a = glx.gen_visual_attribs(&s);
    assert_eq!(&a[23..], &[100000, 1, 100001, 4, 0, 0, 0]);
}

#[test]
fn fbconfig_attribs_for_default_settings() {
    let glx = Glx { ext: GlxExt::default() };
    let a = glx.gen_fbconfig_attribs(&GLPixelFormatSettings::default());
    assert_eq!(
        a,
        [
            0x8013, -1, 5, 1, 6, 0, 7, 0, 8, 8, 9, 8, 10, 8, 11, 8, 12, 24, 13, 8, 14, 0, 15, 0, 16, 0,
            17, 0, 0x8011, 1, 0x8010, 1, 0x22, 0x8002, 0x8012, 1, 100000, 0, 100001, 0, 0x20, -1, 0,
        ]
    );
}

#[test]
fn arb_attribs_for_default_settings() {
    let glx = Glx { ext: GlxExt::default() };
    let a = glx.gen_arb_attribs(&GLContextSettings::default());
    assert_eq!(a, [0x2091, 3, 0x2092, 0, 0x2094, 3, 0, 0, 0, 0, 0]);
    let glx = Glx { ext: GlxExt { arb_create_context_profile: true, ..GlxExt::default() } };
    let a = glx.gen_arb_attribs(&GLContextSettings::default());
    assert_eq!(a, [0x2091, 3, 0x2092, 0, 0x2094, 3, 0x9126, 2, 0, 0, 0]);
}

#[test]
fn arb_attribs_for_a_robust_core_context() {
    let glx = Glx {
        ext: GlxExt {
            arb_create_context_profile: true,
            arb_create_context_robustness: true,
            ..GlxExt::default()
        },
    };
    let c = GLContextSettings {
        version: Some(GLVersion::new_desktop(4, 5)),
        profile: Some(GLProfile::Core),
        debug: false,
        forward_compatible: true,
        robust_access: Some(GLContextResetNotificationStrategy::LoseContextOnReset),
    };
    let a = glx.gen_arb_attribs(&c);
    assert_eq!(a, [0x2091, 4, 0x2092, 5, 0x2094, 6, 0x9126, 1, 0x8256, 0x8252, 0]);
    let c = GLContextSettings {
        version: Some(GLVersion::new_es(2, 0)),
        profile: None,
        debug: true,
        forward_compatible: false,
        robust_access: Some(GLContextResetNotificationStrategy::NoResetNotification),
    };
    let a = glx.gen_arb_attribs(&c);
    assert_eq!(a, [0x2091, 2, 0x2092, 0, 0x2094, 5, 0x8256, 0x8256, 0, 0, 0]);
}

#[test]
fn swap_interval_decisions() {
    let all = Glx {
        ext: GlxExt {
            ext_swap_control: true,
            ext_swap_control_tear: true,
            mesa_swap_control: true,
            ..GlxExt::default()
        },
    };
    assert_eq!(set_gl_swap_interval(Some(&all), true, GLSwapInterval::VSync).unwrap(), SwapIntervalCall::Ext(1));
    assert_eq!(set_gl_swap_interval(Some(&all), false, GLSwapInterval::Immediate).unwrap(), SwapIntervalCall::Mesa(0));
    assert_eq!(
        set_gl_swap_interval(Some(&all), true, GLSwapInterval::LateSwapTearing).unwrap(),
        SwapIntervalCall::Ext(-1)
    );
    let sgi = Glx { ext: GlxExt { sgi_swap_control: true, ..GlxExt::default() } };
    assert_eq!(set_gl_swap_interval(Some(&sgi), true, GLSwapInterval::Interval(2)).unwrap(), SwapIntervalCall::Sgi(2));
    let e = set_gl_swap_interval(Some(&sgi), true, GLSwapInterval::Interval(-1)).unwrap_err();
    assert_eq!(e.kind, ErrorKind::Failed);
    assert_eq!(e.reason.as_deref(), Some("Late swap tearing requires GLX_EXT_swap_control_tear"));
    let none = Glx { ext: GlxExt::default() };
    let e = set_gl_swap_interval(Some(&none), true, GLSwapInterval::VSync).unwrap_err();
    assert_eq!(e.reason.as_deref(), Some("No GLX extension that could set the swap interval is present"));
    let e = set_gl_swap_interval(None, true, GLSwapInterval::VSync).unwrap_err();
    assert_eq!(e.reason.as_deref(), Some("GLX is not supported!"));
}

fn fbc(has_visual: bool, sample_buffers: i32, samples: i32, stereo: bool) -> FbConfigAttribs {
    FbConfigAttribs { has_visual, sample_buffers, samples, double_buffer: !stereo, stereo }
}

#[test]
fn fbconfig_choice_prefers_first_suitable_else_first() {
    let mut s = GLPixelFormatSettings::default();
    s.msaa = GLMsaa { buffer_count: 1, sample_count: 4 };
    let cands = vec![
        fbc(true, 0, 0, true),
        fbc(false, 1, 4, true),
        fbc(true, 1, 4, false),
        fbc(true, 1, 4, true),
        fbc(true, 1, 4, true),
    ];
    assert_eq!(choose_fbconfig(&cands, &s), 3);
    assert_eq!(chosen_fbconfig_outcome(&cands, &s).unwrap(), 3);
    let none_suit = vec![fbc(true, 0, 0, false), fbc(true, 1, 4, false)];
    assert_eq!(choose_fbconfig(&none_suit, &s), 0);
    let e = chosen_fbconfig_outcome(&vec![], &s).unwrap_err();
    assert_eq!(e.kind, ErrorKind::Failed);
    assert_eq!(e.reason.as_deref(), Some("No matching FBConfig was found!"));
}

#[test]
fn pixel_format_request_by_glx_version() {
    let glx = Glx { ext: GlxExt::parse("GLX_ARB_multisample") };
    let s = GLPixelFormatSettings::default();
    match choose_gl_pixel_format_request(Some(&glx), 1, 2, &s).unwrap() {
        PixelFormatRequest::ChooseVisual(a) => assert_eq!(a, glx.gen_visual_attribs(&s)),
        _ => panic!("expected a visual request"),
    }
    match choose_gl_pixel_format_request(Some(&glx), 1, 4, &s).unwrap() {
        PixelFormatRequest::ChooseFbConfig(a) => assert_eq!(a, glx.gen_fbconfig_attribs(&s)),
        _ => panic!("expected a frame buffer configuration request"),
    }
    let e = choose_gl_pixel_format_request(None, 1, 4, &s).unwrap_err();
    assert_eq!(e.reason.as_deref(), Some("The GLX extension is not present"));
    assert!(chosen_visual_outcome(true).is_ok());
    assert_eq!(chosen_visual_outcome(false).unwrap_err().reason.as_deref(), Some("glXChooseVisual() failed"));
}
