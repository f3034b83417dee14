//! Cloning, default construction, hashing and formatting.
//!
//! Cloning and default construction work on the payload and never read the
//! view. Hashing and formatting work on the view and never see the variant.
use std::fmt::Display;
use std::hash::Hash;
use std::hash::Hasher;
use vstd::prelude::*;
use vstd::string::to_string_from_display_ensures;
use crate::view::AsView;
use crate::Cow;

verus! {

impl<'a, T: Clone, R: ?Sized> Clone for Cow<'a, T, R> {
    /// An owned container clones its payload. A borrowed one copies the
    /// reference: the clone is borrowed too, and refers to the same value.
    fn clone(&self) -> (c: Self)
        ensures
            *self matches Cow::Owned(t) ==> c matches Cow::Owned(u) && cloned::<T>(t, u),
            *self matches Cow::Borrowed(r) ==> c == Cow::<'a, T, R>::Borrowed(r),
    {
        match self {
            Cow::Owned(t) => Cow::Owned(t.clone()),
            Cow::Borrowed(r) => Cow::Borrowed(*r),
        }
    }
}

impl<'a, T: Copy, R: ?Sized> Copy for Cow<'a, T, R> {}

impl<'a, T: Default, R: ?Sized> Default for Cow<'a, T, R> {
    /// The owned container of `T`'s default value.
    fn default() -> (c: Self)
        ensures
            c matches Cow::Owned(t) && call_ensures(T::default, (), t),
    {
        Cow::Owned(T::default())
    }
}

/// `Hash::hash` of `view` into `state`.
///
/// Nothing is claimed of the state afterwards: what a hasher makes of a
/// value is its own business.
#[verifier::external_body]
fn hash_view<R: Hash + ?Sized, H: Hasher>(view: &R, state: &mut H) {
    view.hash(state)
}

impl<'a, T: AsView<R>, R: Hash + ?Sized> Hash for Cow<'a, T, R> {
    /// Feeds the view, and nothing else, to the hasher: no tag for the
    /// variant goes in.
    fn hash<H: Hasher>(&self, state: &mut H) {
        hash_view(self.as_view(), state)
    }
}

impl<'a, T: AsView<R>, R: Display + ?Sized> Cow<'a, T, R> {
    /// The view, formatted by `R`'s own `Display`.
    pub fn to_string(&self) -> (s: String)
        ensures
            to_string_from_display_ensures::<R>(self.as_view_spec(), s),
    {
        self.as_view().to_string()
    }
}

} // verus!
