//! Custom rendering supplied by the unit marker.
//!
//! A marker type stays inert: the one capability it may take on is
//! [`DisplayerOf`], a single rendering method for "its" wrapper. The
//! [`DisplayProxy`] adapter lets a wrapper offer that rendering without the
//! wrapper's other operations having to know anything about formatting: the
//! proxy borrows the wrapper, and rendering goes through the marker type
//! alone.

use core::marker::PhantomData;
use vstd::prelude::*;

verus! {

/// A rendering capability for values of type `T`, meant to be implemented by
/// a unit marker for its own wrapper type. The result is whatever text the
/// marker chooses; the library promises only that rendering a proxy calls
/// this method on the borrowed value.
pub trait DisplayerOf<T> {
    /// Renders `value` as text.
    fn display(value: &T) -> String;
}

/// A transient, borrowed view over a value of type `T` that renders through
/// the displayer `D`. Constructed on demand, used for one rendering, then
/// discarded.
pub struct DisplayProxy<'a, T, D: DisplayerOf<T>> {
    value: &'a T,
    marker: PhantomData<D>,
}

impl<'a, T, D: DisplayerOf<T>> DisplayProxy<'a, T, D> {
    /// The value the proxy borrows.
    pub closed spec fn target(self) -> &'a T {
        self.value
    }

    /// Borrows `value` for later rendering through `D`.
    pub fn new(value: &'a T) -> (r: Self)
        ensures
            r.target() == value,
    {
        DisplayProxy { value, marker: PhantomData }
    }

    /// Renders the borrowed value through `D`; the result is exactly what
    /// `D::display` produces for it.
    pub fn render(&self) -> (r: String)
        ensures
            call_ensures(D::display, (self.target(),), r),
    {
        D::display(self.value)
    }
}

} // verus!
