//! Giving a container a new payload from a source, reusing the old payload
//! where there is one.
use vstd::prelude::*;
use crate::Cow;

verus! {

impl<'a, T, R: ?Sized> Cow<'a, T, R> {
    /// Renews the payload from `source`.
    ///
    /// An owned container lets `in_place` work on the payload it has, so
    /// that what the payload has allocated can be used again; whatever
    /// `in_place` leaves behind is the payload afterwards, also when it
    /// reports an error. A borrowed container has no payload to work on: it
    /// drops its reference for the owned value that `fresh` builds. If
    /// `fresh` fails, the container is left as it was and the error is
    /// handed on.
    ///
    /// Exactly one of the two functions is called, once, and it gets
    /// `source`. The one that is called must accept what it is given:
    /// `in_place` the source with the payload, `fresh` the source.
    pub fn refill<S, E, F, G>(&mut self, source: S, in_place: F, fresh: G) -> (res: Result<(), E>)
        where
            F: FnOnce(S, &mut T) -> Result<(), E>,
            G: FnOnce(S) -> Result<T, E>,
        requires
            forall|slot: &mut T|
                *old(self) == Cow::<'a, T, R>::Owned(*slot) ==> call_requires(
                    in_place,
                    (source, slot),
                ),
            *old(self) is Borrowed ==> call_requires(fresh, (source,)),
        ensures
            *old(self) matches Cow::Owned(t) ==> (exists|slot: &mut T|
                #![trigger call_ensures(in_place, (source, slot), res)]
                *slot == t
                    && call_ensures(in_place, (source, slot), res)
                    && *final(self) == Cow::<'a, T, R>::Owned(*final(slot))),
            *old(self) is Borrowed && res is Ok ==> (exists|v: T|
                #![trigger call_ensures(fresh, (source,), Ok::<T, E>(v))]
                call_ensures(fresh, (source,), Ok::<T, E>(v))
                    && *final(self) == Cow::<'a, T, R>::Owned(v)),
            *old(self) is Borrowed ==> (res matches Err(e) ==> call_ensures(
                fresh,
                (source,),
                Err::<T, E>(e),
            )),
            *old(self) is Borrowed && res is Err ==> *final(self) == *old(self),
    {
        match self {
            Cow::Owned(t) => in_place(source, t),
            Cow::Borrowed(_) => match fresh(source) {
                Ok(v) => {
                    *self = Cow::Owned(v);
                    Ok(())
                },
                Err(e) => Err(e),
            },
        }
    }
}

} // verus!
