//! Equality and ordering of containers: always that of their views.
//!
//! Two containers are compared by what they show, never by which variant
//! they are. Each comparison also exists against a bare `R`.
use std::cmp::Ordering;
use vstd::prelude::*;
use vstd::std_specs::cmp::OrdSpec;
use vstd::std_specs::cmp::PartialEqSpec;
use vstd::std_specs::cmp::PartialEqSpecImpl;
use vstd::std_specs::cmp::PartialOrdSpec;
use vstd::std_specs::cmp::PartialOrdSpecImpl;
use crate::view::AsView;
use crate::Cow;

verus! {

impl<'a, T: AsView<R>, R: PartialEq + ?Sized> PartialEq<R> for Cow<'a, T, R> {
    fn eq(&self, other: &R) -> (b: bool)
        ensures
            call_ensures(R::eq, (self.as_view_spec(), other), b),
    {
        self.as_view().eq(other)
    }
}

impl<'a, T: AsView<R>, R: PartialEq + ?Sized> PartialEqSpecImpl<R> for Cow<'a, T, R> {
    open spec fn obeys_eq_spec() -> bool {
        R::obeys_eq_spec()
    }

    open spec fn eq_spec(&self, other: &R) -> bool {
        R::eq_spec(self.as_view_spec(), other)
    }
}

impl<'a, T: AsView<R>, R: PartialEq + ?Sized> PartialEq for Cow<'a, T, R> {
    fn eq(&self, other: &Self) -> (b: bool)
        ensures
            call_ensures(R::eq, (self.as_view_spec(), other.as_view_spec()), b),
    {
        self.as_view().eq(other.as_view())
    }
}

impl<'a, T: AsView<R>, R: PartialEq + ?Sized> PartialEqSpecImpl for Cow<'a, T, R> {
    open spec fn obeys_eq_spec() -> bool {
        R::obeys_eq_spec()
    }

    open spec fn eq_spec(&self, other: &Self) -> bool {
        R::eq_spec(self.as_view_spec(), other.as_view_spec())
    }
}

impl<'a, T: AsView<R>, R: Eq + ?Sized> Eq for Cow<'a, T, R> {}

impl<'a, T: AsView<R>, R: PartialOrd + ?Sized> PartialOrd<R> for Cow<'a, T, R> {
    fn partial_cmp(&self, other: &R) -> (o: Option<Ordering>)
        ensures
            call_ensures(R::partial_cmp, (self.as_view_spec(), other), o),
    {
        self.as_view().partial_cmp(other)
    }

    fn lt(&self, other: &R) -> (b: bool)
        ensures
            call_ensures(R::lt, (self.as_view_spec(), other), b),
    {
        self.as_view().lt(other)
    }

    fn le(&self, other: &R) -> (b: bool)
        ensures
            call_ensures(R::le, (self.as_view_spec(), other), b),
    {
        self.as_view().le(other)
    }

    fn gt(&self, other: &R) -> (b: bool)
        ensures
            call_ensures(R::gt, (self.as_view_spec(), other), b),
    {
        self.as_view().gt(other)
    }

    fn ge(&self, other: &R) -> (b: bool)
        ensures
            call_ensures(R::ge, (self.as_view_spec(), other), b),
    {
        self.as_view().ge(other)
    }
}

impl<'a, T: AsView<R>, R: PartialOrd + ?Sized> PartialOrdSpecImpl<R> for Cow<'a, T, R> {
    open spec fn obeys_partial_cmp_spec() -> bool {
        R::obeys_partial_cmp_spec()
    }

    open spec fn partial_cmp_spec(&self, other: &R) -> Option<Ordering> {
        R::partial_cmp_spec(self.as_view_spec(), other)
    }
}

impl<'a, T: AsView<R>, R: PartialOrd + ?Sized> PartialOrd for Cow<'a, T, R> {
    fn partial_cmp(&self, other: &Self) -> (o: Option<Ordering>)
        ensures
            call_ensures(R::partial_cmp, (self.as_view_spec(), other.as_view_spec()), o),
    {
        self.as_view().partial_cmp(other.as_view())
    }

    fn lt(&self, other: &Self) -> (b: bool)
        ensures
            call_ensures(R::lt, (self.as_view_spec(), other.as_view_spec()), b),
    {
        self.as_view().lt(other.as_view())
    }

    fn le(&self, other: &Self) -> (b: bool)
        ensures
            call_ensures(R::le, (self.as_view_spec(), other.as_view_spec()), b),
    {
        self.as_view().le(other.as_view())
    }

    fn gt(&self, other: &Self) -> (b: bool)
        ensures
            call_ensures(R::gt, (self.as_view_spec(), other.as_view_spec()), b),
    {
        self.as_view().gt(other.as_view())
    }

    fn ge(&self, other: &Self) -> (b: bool)
        ensures
            call_ensures(R::ge, (self.as_view_spec(), other.as_view_spec()), b),
    {
        self.as_view().ge(other.as_view())
    }
}

impl<'a, T: AsView<R>, R: PartialOrd + ?Sized> PartialOrdSpecImpl for Cow<'a, T, R> {
    open spec fn obeys_partial_cmp_spec() -> bool {
        R::obeys_partial_cmp_spec()
    }

    open spec fn partial_cmp_spec(&self, other: &Self) -> Option<Ordering> {
        R::partial_cmp_spec(self.as_view_spec(), other.as_view_spec())
    }
}

impl<'a, T: AsView<R>, R: Ord + ?Sized> Cow<'a, T, R> {
    /// The total order of two containers: that of their views.
    pub fn cmp(&self, other: &Self) -> (o: Ordering)
        ensures
            call_ensures(R::cmp, (self.as_view_spec(), other.as_view_spec()), o),
            R::obeys_cmp_spec() ==> o == R::cmp_spec(self.as_view_spec(), other.as_view_spec()),
    {
        self.as_view().cmp(other.as_view())
    }
}

} // verus!
