//! The capability to expose a read-only view.
use std::borrow::Borrow;
use vstd::prelude::*;

verus! {

/// A type that can show itself as a `&R`.
///
/// `as_view_spec` says which `R` that is, and `as_view` hands it out. The
/// view is a function of the value: it must not depend on anything else, and
/// producing it must not change the value.
///
/// An implementation in unverified code writes `as_view_spec` as an ordinary
/// method, with the body of `as_view`.
pub trait AsView<R: ?Sized> {
    /// The view of `self`.
    spec fn as_view_spec(&self) -> &R;

    /// Hands out the view of `self`.
    fn as_view(&self) -> (r: &R)
        ensures
            r == self.as_view_spec(),
    ;
}

/// Every value is a view of itself.
impl<T: ?Sized> AsView<T> for T {
    open spec fn as_view_spec(&self) -> &T {
        self
    }

    fn as_view(&self) -> (r: &T) {
        self
    }
}

/// A vector is viewed as the slice of its elements.
impl<E> AsView<[E]> for Vec<E> {
    open spec fn as_view_spec(&self) -> &[E] {
        choose|s: &[E]| s@ == self@
    }

    fn as_view(&self) -> (r: &[E])
        ensures
            <[E] as View>::view(r) == self@,
    {
        let r = self.as_slice();
        proof {
            broadcast use vstd::slice::axiom_slice_ext_equal;

            let v: &[E] = self.as_view_spec();
            assert(r@ == self@);
            assert(v@ == self@);
            assert(r =~= v);
        }
        r
    }
}

/// The string slice with the characters `chars`, as `String`'s `Borrow<str>`
/// hands it out.
pub uninterp spec fn borrowed_str(chars: Seq<char>) -> &'static str;

/// `<String as Borrow<str>>::borrow`: the slice over the whole string.
///
/// Believed, not proved: the slice has the string's characters, and it is
/// the same slice for every string with those characters.
#[verifier::external_body]
fn borrow_str(s: &String) -> (r: &str)
    ensures
        r@ == s@,
        r == borrowed_str(s@),
{
    s.borrow()
}

/// A string is viewed as the string slice of its characters.
impl AsView<str> for String {
    open spec fn as_view_spec(&self) -> &str {
        borrowed_str(self@)
    }

    fn as_view(&self) -> (r: &str)
        ensures
            <str as View>::view(r) == self@,
    {
        borrow_str(self)
    }
}

} // verus!
