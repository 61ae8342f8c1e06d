//! DMC - Display and Multimedia Context.
//!
//! The platform-independent logic of a windowing and input library: error values, event
//! timestamps, human interface device models, the udev and evdev side of game controllers
//! on Linux (device descriptions, event translation, force feedback and the registry of
//! connected controllers), the events the library reports and what each X event becomes,
//! GLX attribute lists, pixel-format choice and swap intervals, X11 window manager
//! protocol values, cursor glyphs and Win32 message decoding.
//!
//! System calls stay with the caller: each operation that depends on one takes what the
//! system answered and decides what happens next.

pub mod error;
pub mod geom;
pub mod strings;
pub mod time_utils;
pub mod event_instant;
pub mod event;
pub mod device;
pub mod linuxdev;
pub mod gl;
pub mod glx;
pub mod wgl;
pub mod cursor;
pub mod windows;
pub mod wndproc;
pub mod x11;
pub mod x11_events;
pub mod window;
pub mod hint;
pub mod desktop;
pub mod os_state;
pub mod queue;
pub mod image;
