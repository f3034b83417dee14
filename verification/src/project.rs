//! Reading a container: one view, whichever variant is active.
use std::borrow::Borrow;
use std::ops::Deref;
use vstd::prelude::*;
use crate::view::AsView;
use crate::Cow;

verus! {

impl<'a, T: AsView<R>, R: ?Sized> Cow<'a, T, R> {
    /// The view of this container: the view of the payload when owned, the
    /// reference held when borrowed.
    pub open spec fn as_view_spec(&self) -> &R {
        match self {
            Cow::Owned(t) => t.as_view_spec(),
            Cow::Borrowed(r) => r,
        }
    }

    /// Hands out the view of this container. Nothing is cloned and the
    /// variant stays as it is.
    pub fn as_view(&self) -> (r: &R)
        ensures
            r == self.as_view_spec(),
            self matches Cow::Owned(t) ==> call_ensures(T::as_view, (t,), r),
    {
        match self {
            Cow::Owned(t) => t.as_view(),
            Cow::Borrowed(r) => r,
        }
    }
}

/// A container can itself be the owned side of another container.
impl<'a, T: AsView<R>, R: ?Sized> AsView<R> for Cow<'a, T, R> {
    open spec fn as_view_spec(&self) -> &R {
        Cow::as_view_spec(self)
    }

    fn as_view(&self) -> (r: &R) {
        Cow::as_view(self)
    }
}

/// Where views of `R` have a mathematical model, that of the view is the
/// container's too.
impl<'a, T: AsView<R>, R: View + ?Sized> View for Cow<'a, T, R> {
    type V = R::V;

    open spec fn view(&self) -> R::V {
        self.as_view_spec()@
    }
}

// The three std traits through which a container is read all give the view.

impl<'a, T: AsView<R>, R: ?Sized> AsRef<R> for Cow<'a, T, R> {
    fn as_ref(&self) -> (r: &R)
        ensures
            r == self.as_view_spec(),
            self matches Cow::Owned(t) ==> call_ensures(T::as_view, (t,), r),
    {
        Cow::as_view(self)
    }
}

impl<'a, T: AsView<R>, R: ?Sized> Deref for Cow<'a, T, R> {
    type Target = R;

    fn deref(&self) -> (r: &R)
        ensures
            r == self.as_view_spec(),
            self matches Cow::Owned(t) ==> call_ensures(T::as_view, (t,), r),
    {
        Cow::as_view(self)
    }
}

impl<'a, T: AsView<R>, R: ?Sized> Borrow<R> for Cow<'a, T, R> {
    fn borrow(&self) -> &R
        returns
            self.as_view_spec(),
    {
        Cow::as_view(self)
    }
}

} // verus!
