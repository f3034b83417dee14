//! What holds of every container, stated over the spec functions that the
//! contracts of the operations use.
use vstd::prelude::*;
use vstd::std_specs::cmp::PartialEqSpec;
use vstd::std_specs::convert::FromSpec;
use crate::view::AsView;
use crate::Cow;

verus! {

/// The view does not depend on the variant: an owned container shows what a
/// borrowed container of its payload's view shows.
pub proof fn lemma_view_ignores_variant<'a, T: AsView<R>, R: ?Sized>(owned: T)
    ensures
        Cow::<'a, T, R>::Owned(owned).as_view_spec() == Cow::<'a, T, R>::Borrowed(
            owned.as_view_spec(),
        ).as_view_spec(),
{
}

/// Equality ignores the variant.
///
/// Let `owned` be an owned copy of `v`, that is, a payload whose view is
/// `v`. Then the owned container of `owned` and the borrowed container of
/// `v` are equal to each other, in both directions, and each is equal to the
/// bare `v`, exactly when `v` is equal to itself.
pub proof fn lemma_eq_ignores_variant<'a, T: AsView<R>, R: PartialEq + ?Sized>(owned: T, v: &'a R)
    requires
        owned.as_view_spec() == v,
    ensures
        Cow::<'a, T, R>::Owned(owned).eq_spec(&Cow::<'a, T, R>::Borrowed(v)) == v.eq_spec(v),
        Cow::<'a, T, R>::Borrowed(v).eq_spec(&Cow::<'a, T, R>::Owned(owned)) == v.eq_spec(v),
        Cow::<'a, T, R>::Owned(owned).eq_spec(v) == v.eq_spec(v),
        Cow::<'a, T, R>::Borrowed(v).eq_spec(v) == v.eq_spec(v),
{
}

/// A digest of the view agrees with equality, whatever the variants.
///
/// A container feeds its view to the hasher, and nothing else. So let
/// `digest` stand for what hashing makes of an `R`, and let it agree with
/// `R`'s equality. Then two equal containers have the same digest.
pub proof fn lemma_digest_of_view_agrees_with_eq<'a, T: AsView<R>, R: PartialEq + ?Sized, D>(
    a: Cow<'a, T, R>,
    b: Cow<'a, T, R>,
    digest: spec_fn(&R) -> D,
)
    requires
        forall|x: &R, y: &R| #[trigger] x.eq_spec(y) ==> digest(x) == digest(y),
        a.eq_spec(&b),
    ensures
        digest(a.as_view_spec()) == digest(b.as_view_spec()),
{
}

/// Promotion happens at most once.
///
/// Whatever `c` was, once it has been promoted it is owned, with some
/// payload `first`. Promoting it again converts nothing: the payload that
/// comes out is `first` itself.
pub proof fn lemma_promotion_is_idempotent<'a, T: From<&'a R>, R: ?Sized>(
    c: Cow<'a, T, R>,
    first: T,
    second: T,
)
    requires
        c.promotes_to(first),
        Cow::<'a, T, R>::Owned(first).promotes_to(second),
    ensures
        second == first,
{
}

/// The fallible form of [`lemma_promotion_is_idempotent`]: promoting an
/// owned container again cannot fail, and gives the payload itself.
pub proof fn lemma_try_promotion_is_idempotent<'a, T: TryFrom<&'a R>, R: ?Sized>(
    first: T,
    second: Result<T, T::Error>,
)
    requires
        Cow::<'a, T, R>::Owned(first).try_promotes_to(second),
    ensures
        second == Ok::<T, T::Error>(first),
{
}

/// Promotion preserves the value, where the conversion does.
///
/// Let `T::from` keep values: what it builds from `v` shows a view equal to
/// `v`. Then promoting the borrowed container of `v` gives a payload whose
/// view is equal to `v`, and the owned container of that payload is equal
/// to `v`.
pub proof fn lemma_promotion_preserves_value<'a, T: From<&'a R> + AsView<R>, R: PartialEq + ?Sized>(
    v: &'a R,
    t: T,
)
    requires
        T::obeys_from_spec(),
        AsView::<R>::as_view_spec(&T::from_spec(v)).eq_spec(v),
        Cow::<'a, T, R>::Borrowed(v).promotes_to(t),
    ensures
        AsView::<R>::as_view_spec(&t).eq_spec(v),
        Cow::<'a, T, R>::Owned(t).eq_spec(v),
{
}

} // verus!
