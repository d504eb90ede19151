# gpui_ios

The platform layer of a GPU-accelerated UI framework on iOS and iPadOS.

- `src/` is a Verus library. It holds the decisions of the layer as verified
  code on plain values: input events from key presses and touches, the fonts
  that are loaded and the choice among them, the layout of lines, the state of
  windows and of the platform, task queues and task timings.
- `app/` talks to UIKit, CoreText, CoreGraphics and Grand Central Dispatch, and
  does the floating-point arithmetic. It passes plain values to the library and
  does what the library says. The framework and its Metal renderer plug in
  through the traits of `app/host.rs`.
- `tests/` runs the library.

The proofs rest on what a few functions of `smallvec`, `uuid` and the standard
library are said to do; see `src/font_ids.rs`, `src/display.rs` and
`src/text.rs`.
