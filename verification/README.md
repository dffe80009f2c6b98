# gpui_view

A verified library in two parts.

**Views.** Handles to the views of a windowed application (`src/entity.rs`, `src/view.rs`) and
the three passes that lay out, prepaint and paint a view in each frame (`src/layout.rs`,
`src/prepaint.rs`, `src/paint.rs`). A cached view is taken over from the last frame where that
makes no difference (`src/cache.rs`). A pass does not touch a window itself: it says what is to
be done next, and is told what came of it. `src/window.rs` says what a window does for a pass;
`src/frame.rs` proves what comes of a whole pass and of a whole frame.

**The `#[stacksafe]` attribute.** `src/stacksafe.rs` says what the attribute makes of a function:
the same function, with its block on a stack that grows. `src/tokens.rs` holds the streams of
tokens that it works on.

`app/` connects the passes to a window, the views to the routines that render them, and the
attribute to the compiler.
