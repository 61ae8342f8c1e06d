# dmc

The platform-independent logic of a windowing and input library, verified with Verus.

- `src/`: the library. Each operation that depends on a system call takes what the system
  answered and decides what happens next: udev/evdev controller descriptions, event
  translation, force feedback and the controller registry (`linuxdev`); what each X event
  and each Win32 message becomes (`x11_events`, `wndproc`); GLX and WGL attribute lists,
  pixel-format choice and swap intervals (`glx`, `wgl`); window creation plans (`window`);
  errors, event instants, durations and small X11/Win32 protocol values.
- `tests/`: tests on concrete values.
- `app/`: the system side: opening device nodes, writing force feedback events, the evdev
  pump, and conversions to floating-point and `vek` types.
