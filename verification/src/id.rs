//! The ordinal-identifier variant of the tagged wrapper.
//!
//! An identifier names something; it is not a quantity. `Id` therefore keeps
//! construction, equality, ordering, default and duplication from the common
//! pattern, and deliberately offers no addition, subtraction or scaling.

use core::marker::PhantomData;
use vstd::prelude::*;
use vstd::std_specs::cmp::{PartialEqSpec, PartialOrdSpec};

verus! {

/// An identifier tagged with `Unit`, stored as a bare `Repr` value.
///
/// The capability flags work as on [`crate::amount::Amount`]: `IS_COPY`
/// decides whether values may be duplicated implicitly, `HAS_DEFAULT`
/// whether the identifier has a default value.
#[verifier::reject_recursive_types(Unit)]
pub struct Id<const IS_COPY: bool, const HAS_DEFAULT: bool, Unit, Repr> {
    repr: Repr,
    marker: PhantomData<Unit>,
}

impl<const IS_COPY: bool, const HAS_DEFAULT: bool, Unit, Repr> View for Id<
    IS_COPY,
    HAS_DEFAULT,
    Unit,
    Repr,
> {
    type V = Repr;

    /// An identifier is, mathematically, nothing but its representation value.
    closed spec fn view(&self) -> Repr {
        self.repr
    }
}

impl<const IS_COPY: bool, const HAS_DEFAULT: bool, Unit, Repr> Id<IS_COPY, HAS_DEFAULT, Unit, Repr> {
    /// The identifier holding `v`, at the specification level.
    pub closed spec fn wrap_spec(v: Repr) -> Self {
        Id { repr: v, marker: PhantomData }
    }

    /// Wraps a representation value. Construction never fails and performs no
    /// validation.
    pub fn new(repr: Repr) -> (r: Self)
        ensures
            r == Self::wrap_spec(repr),
            r@ == repr,
    {
        Id { repr, marker: PhantomData }
    }

    /// Wrapping a value and reading it back yields that value.
    pub proof fn lemma_unwrap_construct(v: Repr)
        ensures
            Self::wrap_spec(v)@ == v,
    {
    }

    /// An identifier carries no state besides its representation value:
    /// wrapping the value an identifier holds yields that identifier back.
    pub proof fn lemma_wrap_extensional(a: Self)
        ensures
            Self::wrap_spec(a@) == a,
    {
    }
}

impl<const IS_COPY: bool, const HAS_DEFAULT: bool, Unit, Repr: Copy> Id<
    IS_COPY,
    HAS_DEFAULT,
    Unit,
    Repr,
> {
    /// Returns the wrapped representation value.
    pub fn get(&self) -> (r: Repr)
        ensures
            r == self@,
    {
        self.repr
    }
}

impl<const IS_COPY: bool, const HAS_DEFAULT: bool, Unit: Default, Repr> Id<
    IS_COPY,
    HAS_DEFAULT,
    Unit,
    Repr,
> {
    /// A value of the unit marker, for tags that choose to be constructible.
    pub fn unit(&self) -> (r: Unit)
        ensures
            call_ensures(Unit::default, (), r),
    {
        Unit::default()
    }
}

impl<const IS_COPY: bool, const HAS_DEFAULT: bool, Unit, Repr> Id<IS_COPY, HAS_DEFAULT, Unit, Repr> where
    Unit: crate::displayer::DisplayerOf<Self>,
 {
    /// A borrowed proxy that renders this identifier through the unit
    /// marker's own [`crate::displayer::DisplayerOf`] implementation.
    pub fn display(&self) -> (r: crate::displayer::DisplayProxy<'_, Self, Unit>)
        ensures
            r.target() == self,
    {
        crate::displayer::DisplayProxy::new(self)
    }
}

impl<const IS_COPY: bool, const HAS_DEFAULT: bool, Unit, Repr: Clone> Clone for Id<
    IS_COPY,
    HAS_DEFAULT,
    Unit,
    Repr,
> {
    /// Duplicates the identifier by cloning its representation.
    fn clone(&self) -> (r: Self)
        ensures
            vstd::pervasive::cloned::<Repr>(self@, r@),
    {
        Id { repr: self.repr.clone(), marker: PhantomData }
    }
}

impl<const HAS_DEFAULT: bool, Unit, Repr: Copy> Copy for Id<true, HAS_DEFAULT, Unit, Repr> {

}

impl<const IS_COPY: bool, Unit, Repr: Default> Default for Id<IS_COPY, true, Unit, Repr> {
    /// The identifier wrapping the representation's own default value.
    fn default() -> (r: Self)
        ensures
            call_ensures(Repr::default, (), r@),
    {
        Id { repr: Repr::default(), marker: PhantomData }
    }
}

impl<const IS_COPY: bool, const HAS_DEFAULT: bool, Unit, Repr> From<Repr> for Id<
    IS_COPY,
    HAS_DEFAULT,
    Unit,
    Repr,
> {
    /// Same as [`Id::new`]: wraps the representation value unchanged.
    fn from(repr: Repr) -> (r: Self)
        ensures
            r == Self::wrap_spec(repr),
            r@ == repr,
    {
        Self::new(repr)
    }
}

impl<const IS_COPY: bool, const HAS_DEFAULT: bool, Unit, Repr> vstd::std_specs::convert::FromSpecImpl<Repr> for Id<
    IS_COPY,
    HAS_DEFAULT,
    Unit,
    Repr,
> {
    open spec fn obeys_from_spec() -> bool {
        true
    }

    open spec fn from_spec(repr: Repr) -> Self {
        Self::wrap_spec(repr)
    }
}

impl<const IS_COPY: bool, const HAS_DEFAULT: bool, Unit, Repr: PartialEq> PartialEq for Id<
    IS_COPY,
    HAS_DEFAULT,
    Unit,
    Repr,
> {
    /// Two identifiers of the same unit are equal exactly when their
    /// representation values are.
    fn eq(&self, other: &Self) -> bool {
        self.repr == other.repr
    }
}

impl<const IS_COPY: bool, const HAS_DEFAULT: bool, Unit, Repr: PartialEq> vstd::std_specs::cmp::PartialEqSpecImpl for Id<
    IS_COPY,
    HAS_DEFAULT,
    Unit,
    Repr,
> {
    open spec fn obeys_eq_spec() -> bool {
        Repr::obeys_eq_spec()
    }

    open spec fn eq_spec(&self, other: &Self) -> bool {
        self@.eq_spec(&other@)
    }
}

impl<const IS_COPY: bool, const HAS_DEFAULT: bool, Unit, Repr: Eq> Eq for Id<
    IS_COPY,
    HAS_DEFAULT,
    Unit,
    Repr,
> {

}

impl<const IS_COPY: bool, const HAS_DEFAULT: bool, Unit, Repr: PartialOrd> PartialOrd for Id<
    IS_COPY,
    HAS_DEFAULT,
    Unit,
    Repr,
> {
    /// Identifiers of the same unit order exactly as their representation
    /// values.
    fn partial_cmp(&self, other: &Self) -> Option<core::cmp::Ordering> {
        self.repr.partial_cmp(&other.repr)
    }
}

impl<const IS_COPY: bool, const HAS_DEFAULT: bool, Unit, Repr: PartialOrd> vstd::std_specs::cmp::PartialOrdSpecImpl for Id<
    IS_COPY,
    HAS_DEFAULT,
    Unit,
    Repr,
> {
    open spec fn obeys_partial_cmp_spec() -> bool {
        Repr::obeys_partial_cmp_spec()
    }

    open spec fn partial_cmp_spec(&self, other: &Self) -> Option<core::cmp::Ordering> {
        self@.partial_cmp_spec(&other@)
    }
}

/// Equality on identifiers is exactly equality on the unwrapped
/// representation values.
pub proof fn lemma_eq_delegates_to_repr<
    const IS_COPY: bool,
    const HAS_DEFAULT: bool,
    Unit,
    Repr: PartialEq,
>(a: Id<IS_COPY, HAS_DEFAULT, Unit, Repr>, b: Id<IS_COPY, HAS_DEFAULT, Unit, Repr>)
    ensures
        a.eq_spec(&b) == a@.eq_spec(&b@),
        Id::<IS_COPY, HAS_DEFAULT, Unit, Repr>::obeys_eq_spec() == Repr::obeys_eq_spec(),
{
}

/// Ordering on identifiers is exactly ordering on the unwrapped
/// representation values.
pub proof fn lemma_ord_delegates_to_repr<
    const IS_COPY: bool,
    const HAS_DEFAULT: bool,
    Unit,
    Repr: PartialOrd,
>(a: Id<IS_COPY, HAS_DEFAULT, Unit, Repr>, b: Id<IS_COPY, HAS_DEFAULT, Unit, Repr>)
    ensures
        a.partial_cmp_spec(&b) == a@.partial_cmp_spec(&b@),
        Id::<IS_COPY, HAS_DEFAULT, Unit, Repr>::obeys_partial_cmp_spec()
            == Repr::obeys_partial_cmp_spec(),
{
}

} // verus!
