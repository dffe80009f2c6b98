use vstd::prelude::*;
use vstd::std_specs::cmp::PartialEqSpec;

verus! {

/// The types of the window system in which views are shown.
///
/// The passes of a frame carry values of these types from the window to the place
/// where they are used again. They look into none of them: what they compare, they
/// compare with `==`.
pub trait Host {
    /// A window.
    type Window;

    /// The application that the windows belong to.
    type App;

    /// A place in a window.
    type Point: Copy + PartialEq;

    /// The size of an element.
    type Size: Copy + PartialEq;

    /// The part of the window that may be drawn on.
    type ContentMask: PartialEq;

    /// The text style that an element inherits.
    type TextStyle: PartialEq;

    /// A position in what the prepaint pass has recorded of the current frame.
    type PrepaintIndex: Copy;

    /// A position in what the paint pass has recorded of the current frame.
    type PaintIndex: Copy;

    /// The path of ids that leads to an element, the same in every frame.
    type GlobalId: Copy;

    /// The name of a node of the layout tree.
    type LayoutId;

    /// What a view's style changes about the default style.
    type Style;

    /// An element, whatever it shows.
    type Element;
}

/// The rectangle that layout has given to an element.
pub struct Bounds<H: Host> {
    pub origin: H::Point,
    pub size: H::Size,
}

impl<H: Host> Clone for Bounds<H> {
    fn clone(&self) -> (copy: Self)
        ensures
            copy == *self,
    {
        *self
    }
}

impl<H: Host> Copy for Bounds<H> {

}

/// Whether `a == b` may come out as `answer`.
pub open spec fn equality_may_be<T: PartialEq>(a: T, b: T, answer: bool) -> bool {
    call_ensures(<T as PartialEq>::eq, (&a, &b), answer)
}

/// The comparisons of the host's types have one answer, which their specifications give. Of
/// the integers, of `bool` and of what is made of them this is known; it does not ask that a
/// value be equal to itself (a rectangle with an undefined side is not).
pub open spec fn comparable<H: Host>() -> bool {
    &&& <H::Point as PartialEqSpec>::obeys_eq_spec()
    &&& <H::Size as PartialEqSpec>::obeys_eq_spec()
    &&& <H::ContentMask as PartialEqSpec>::obeys_eq_spec()
    &&& <H::TextStyle as PartialEqSpec>::obeys_eq_spec()
}

} // verus!
