//! A clone-on-write container whose owned and borrowed types are chosen
//! independently.
//!
//! [`Cow`] holds either a value of `T` or a reference to an `R`. Reading goes
//! through one view, a `&R`, whichever variant is active; asking for mutable
//! access turns a borrowed container into an owned one, once.
//!
//! What `T` has to offer is asked operation by operation:
//!
//! * building a `T` from a `&R` ([`From`] or [`TryFrom`]) for promotion,
//! * exposing a `&R` (`AsView`) for reading, comparing, hashing and
//!   formatting.
use vstd::prelude::*;
use vstd::pervasive::unreached;
use vstd::std_specs::convert::FromSpec;
use vstd::std_specs::convert::TryFromSpec;

pub mod compare;
pub mod forward;
pub mod laws;
pub mod project;
pub mod refill;
pub mod view;

pub use crate::view::AsView;

verus! {

/// Either an owned `T` or a reference to an `R`.
///
/// The variants are public: a container is built by naming the variant. The
/// only way from `Borrowed` to `Owned` in place is promotion
/// ([`Cow::make_mut`], [`Cow::try_make_mut`]); nothing leads back.
#[derive(Debug)]
pub enum Cow<'a, T, R: ?Sized> {
    /// The container owns the value.
    Owned(T),
    /// The container refers to a value owned elsewhere.
    Borrowed(&'a R),
}

impl<'a, T, R: ?Sized> Cow<'a, T, R> {
    /// Whether this is the `Borrowed` variant.
    pub fn is_borrowed(&self) -> (b: bool)
        ensures
            b == (self is Borrowed),
    {
        match self {
            Cow::Owned(_) => false,
            Cow::Borrowed(_) => true,
        }
    }

    /// Whether this is the `Owned` variant.
    pub fn is_owned(&self) -> (b: bool)
        ensures
            b == (self is Owned),
    {
        match self {
            Cow::Owned(_) => true,
            Cow::Borrowed(_) => false,
        }
    }
}

impl<'a, T: From<&'a R>, R: ?Sized> Cow<'a, T, R> {
    /// `t` is a payload that promoting `self` may leave behind: the payload
    /// itself when `self` is owned, and otherwise a value that `T::from`
    /// gives for the reference held.
    pub open spec fn promotes_to(self, t: T) -> bool {
        match self {
            Cow::Owned(o) => t == o,
            Cow::Borrowed(r) => call_ensures(T::from, (r,), t),
        }
    }

    /// Converts this container into a `T`.
    ///
    /// An owned payload is moved out as it is. A borrowed one is converted
    /// with `T::from`.
    pub fn into_owned(self) -> (t: T)
        ensures
            self.promotes_to(t),
            self matches Cow::Borrowed(r) ==> (T::obeys_from_spec() ==> t == T::from_spec(r)),
    {
        match self {
            Cow::Owned(t) => t,
            Cow::Borrowed(r) => T::from(r),
        }
    }

    /// Mutable access to the payload, promoting first where needed.
    ///
    /// An owned container hands out its payload untouched. A borrowed one is
    /// replaced, in place, by the owned conversion of what it referred to.
    /// Either way the container is owned afterwards, and holds whatever the
    /// caller leaves behind the returned reference.
    pub fn make_mut(&mut self) -> (t: &mut T)
        ensures
            old(self).promotes_to(*t),
            *old(self) matches Cow::Borrowed(r) ==> (T::obeys_from_spec() ==> *t == T::from_spec(r)),
            *final(self) == Cow::<'a, T, R>::Owned(*final(t)),
    {
        match self {
            Cow::Owned(t) => t,
            Cow::Borrowed(r) => {
                *self = Cow::Owned(T::from(*r));
                match self {
                    Cow::Owned(t) => t,
                    Cow::Borrowed(_) => unreached(),
                }
            },
        }
    }
}

impl<'a, T: TryFrom<&'a R>, R: ?Sized> Cow<'a, T, R> {
    /// `res` is an outcome that promoting `self` fallibly may have: `Ok` of
    /// the payload when `self` is owned, and otherwise an outcome that
    /// `T::try_from` gives for the reference held.
    pub open spec fn try_promotes_to(self, res: Result<T, T::Error>) -> bool {
        match self {
            Cow::Owned(o) => res == Ok::<T, T::Error>(o),
            Cow::Borrowed(r) => call_ensures(T::try_from, (r,), res),
        }
    }

    /// Converts this container into a `T`, if possible.
    ///
    /// An owned payload is moved out as it is, and this cannot fail. A
    /// borrowed one is converted with `T::try_from`, whose error is handed on.
    pub fn try_into_owned(self) -> (res: Result<T, T::Error>)
        ensures
            self.try_promotes_to(res),
            self matches Cow::Borrowed(r) ==> (T::obeys_try_from_spec() ==> res == T::try_from_spec(r)),
    {
        match self {
            Cow::Owned(t) => Ok(t),
            Cow::Borrowed(r) => T::try_from(r),
        }
    }

    /// Mutable access to the payload, promoting first where needed and
    /// possible.
    ///
    /// An owned container hands out its payload untouched, and this cannot
    /// fail. For a borrowed one `T::try_from` decides: on `Ok` the container
    /// becomes owned as in [`Cow::make_mut`]; on `Err` the error is handed on
    /// and the container is left exactly as it was.
    pub fn try_make_mut(&mut self) -> (res: Result<&mut T, T::Error>)
        ensures
            *old(self) is Owned ==> res is Ok,
            res matches Ok(t) ==> old(self).try_promotes_to(Ok::<T, T::Error>(*t)),
            res matches Ok(t) ==> *final(self) == Cow::<'a, T, R>::Owned(*final(t)),
            res matches Err(e) ==> old(self).try_promotes_to(Err::<T, T::Error>(e)),
            res is Err ==> *final(self) == *old(self),
    {
        match self {
            Cow::Owned(t) => Ok(t),
            Cow::Borrowed(r) => {
                match T::try_from(*r) {
                    Ok(v) => {
                        *self = Cow::Owned(v);
                        match self {
                            Cow::Owned(t) => Ok(t),
                            Cow::Borrowed(_) => unreached(),
                        }
                    },
                    Err(e) => Err(e),
                }
            },
        }
    }
}

} // verus!
