//! OpenGL-related settings: pixel formats, context versions and profiles, swap intervals.

use vstd::prelude::*;

verus! {

/// Hints for Multisample anti-aliasing (MSAA).
#[derive(Debug, Default, Copy, Clone, Hash, PartialEq, Eq, Structural)]
pub struct GLMsaa {
    /// Number of MSAA buffers. If it's zero, MSAA is disabled.
    pub buffer_count: u32,
    /// Number of samples per pixel. Should be a power of two.
    pub sample_count: u32,
}

/// Settings requested for an OpenGL pixel format.
#[derive(Debug, Copy, Clone, Hash, PartialEq, Eq, Structural)]
pub struct GLPixelFormatSettings {
    /// MultiSample AntiAliasing setting.
    pub msaa: GLMsaa,
    /// Number of bits used for storing per-fragment depth values. Often set to 24.
    pub depth_bits: u8,
    /// Number of bits used for storing per-fragment "stencil" values.
    pub stencil_bits: u8,
    /// Use double-buffering? Defaults to `true`.
    pub double_buffer: bool,
    /// Require "left" and "right" frame buffers instead of a single one.
    pub stereo: bool,
    /// Number of bits used for storing the red channel. Often set to 8.
    pub red_bits: u8,
    /// Number of bits used for storing the green channel. Often set to 8.
    pub green_bits: u8,
    /// Number of bits used for storing the blue channel. Often set to 8.
    pub blue_bits: u8,
    /// Number of bits used for storing the alpha channel. Often set to 8.
    pub alpha_bits: u8,
    /// Bits for the red channel of the accumulation buffer, if any.
    pub accum_red_bits: u8,
    /// Bits for the green channel of the accumulation buffer, if any.
    pub accum_green_bits: u8,
    /// Bits for the blue channel of the accumulation buffer, if any.
    pub accum_blue_bits: u8,
    /// Bits for the alpha channel of the accumulation buffer, if any.
    pub accum_alpha_bits: u8,
    /// Number of auxiliary image buffers (deprecated since OpenGL 3.0).
    pub aux_buffers: u8,
}

impl Default for GLPixelFormatSettings {
    /// No MSAA, 24 depth bits, 8 stencil bits, double-buffered, not stereo, 8 bits per
    /// color channel, no accumulation buffer and no auxiliary buffer.
    fn default() -> (r: Self)
        ensures
            r.msaa.buffer_count == 0 && r.msaa.sample_count == 0,
            r.depth_bits == 24,
            r.stencil_bits == 8,
            r.double_buffer,
            !r.stereo,
            r.red_bits == 8 && r.green_bits == 8 && r.blue_bits == 8 && r.alpha_bits == 8,
            r.accum_red_bits == 0 && r.accum_green_bits == 0 && r.accum_blue_bits == 0
                && r.accum_alpha_bits == 0,
            r.aux_buffers == 0,
    {
        GLPixelFormatSettings {
            msaa: GLMsaa { buffer_count: 0, sample_count: 0 },
            depth_bits: 24,
            stencil_bits: 8,
            double_buffer: true,
            stereo: false,
            red_bits: 8,
            green_bits: 8,
            blue_bits: 8,
            alpha_bits: 8,
            accum_red_bits: 0,
            accum_green_bits: 0,
            accum_blue_bits: 0,
            accum_alpha_bits: 0,
            aux_buffers: 0,
        }
    }
}

/// Either Desktop GL or OpenGL ES.
#[derive(Debug, Copy, Clone, Hash, PartialEq, Eq, Structural)]
pub enum GLVariant {
    Desktop,
    ES,
}

impl GLVariant {
    /// Is it Desktop GL?
    pub fn is_desktop(&self) -> (r: bool)
        ensures
            r == (*self == GLVariant::Desktop),
    {
        *self == GLVariant::Desktop
    }

    /// Is it OpenGL ES?
    pub fn is_es(&self) -> (r: bool)
        ensures
            r == (*self == GLVariant::ES),
    {
        *self == GLVariant::ES
    }
}

/// An OpenGL version.
#[derive(Debug, Copy, Clone, Hash, PartialEq, Eq, Structural)]
pub struct GLVersion {
    /// Desktop or ES.
    pub variant: GLVariant,
    /// Major version number.
    pub major: u8,
    /// Minor version number.
    pub minor: u8,
}

impl GLVersion {
    /// A desktop GL version from major and minor version numbers.
    pub fn new_desktop(major: u8, minor: u8) -> (r: Self)
        ensures
            r == (GLVersion { variant: GLVariant::Desktop, major, minor }),
    {
        GLVersion { variant: GLVariant::Desktop, major, minor }
    }

    /// A GL ES version from major and minor version numbers.
    pub fn new_es(major: u8, minor: u8) -> (r: Self)
        ensures
            r == (GLVersion { variant: GLVariant::ES, major, minor }),
    {
        GLVersion { variant: GLVariant::ES, major, minor }
    }

    /// Is it a Desktop GL version?
    pub fn is_desktop(&self) -> (r: bool)
        ensures
            r == (self.variant == GLVariant::Desktop),
    {
        self.variant.is_desktop()
    }

    /// Is it an OpenGL ES version?
    pub fn is_es(&self) -> (r: bool)
        ensures
            r == (self.variant == GLVariant::ES),
    {
        self.variant.is_es()
    }
}

/// Since OpenGL 3.2, the profile of a context is either "core" or "compatibility".
#[derive(Debug, Copy, Clone, Hash, PartialEq, Eq, Structural)]
pub enum GLProfile {
    Core,
    Compatibility,
}

impl Default for GLProfile {
    /// The compatibility profile.
    fn default() -> (r: Self)
        ensures
            r == GLProfile::Compatibility,
    {
        GLProfile::Compatibility
    }
}

/// What a robust context does when it is reset.
#[derive(Debug, Copy, Clone, Hash, PartialEq, Eq, Structural)]
pub enum GLContextResetNotificationStrategy {
    NoResetNotification,
    LoseContextOnReset,
}

/// Settings requested for an OpenGL context.
#[derive(Debug, Copy, Clone, Hash, PartialEq, Eq, Structural)]
pub struct GLContextSettings {
    /// The OpenGL version to use; `None` picks a reasonably modern one.
    pub version: Option<GLVersion>,
    /// The profile, used when the version is 3.2 or greater; `None` asks for the
    /// compatibility profile.
    pub profile: Option<GLProfile>,
    /// Do we want a debug context?
    pub debug: bool,
    /// Only used when the requested OpenGL version is 3.0 or greater.
    pub forward_compatible: bool,
    /// Enables the "robust access" bit in context flags, if the backend supports it.
    pub robust_access: Option<GLContextResetNotificationStrategy>,
}

impl Default for GLContextSettings {
    /// Any version and profile, debug, forward-compatible, without robust access.
    fn default() -> (r: Self)
        ensures
            r.version is None,
            r.profile is None,
            r.debug,
            r.forward_compatible,
            r.robust_access is None,
    {
        GLContextSettings {
            version: None,
            debug: true,
            forward_compatible: true,
            profile: None,
            robust_access: None,
        }
    }
}

/// The interval at which OpenGL buffers are swapped.
#[derive(Debug, Copy, Clone, PartialEq, Eq, Structural)]
pub enum GLSwapInterval {
    /// Frames are synchronized with the monitor's refresh rate. This is the default.
    VSync,
    /// Immediate frame updates.
    Immediate,
    /// Like vsync, but if a vertical retrace was already missed for a frame, buffers are
    /// swapped immediately.
    LateSwapTearing,
    /// The number of vertical blanks to wait for before presenting; negative values ask
    /// for late swap tearing, with the absolute value as the interval.
    Interval(i32),
}

impl Default for GLSwapInterval {
    /// Vertical sync.
    fn default() -> (r: Self)
        ensures
            r == GLSwapInterval::VSync,
    {
        GLSwapInterval::VSync
    }
}

} // verus!
