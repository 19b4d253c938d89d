//! The point-on-a-scale variant of the tagged wrapper.
//!
//! An instant marks a position; the difference of two positions is a
//! quantity. Subtracting two instants of the same unit therefore yields an
//! [`crate::amount::Amount`], not another instant, and adding an amount to an
//! instant yields an instant. Adding two instants has no meaning and is not
//! offered.

use crate::amount::Amount;
use core::marker::PhantomData;
use vstd::prelude::*;
use vstd::std_specs::cmp::{PartialEqSpec, PartialOrdSpec};
use vstd::std_specs::ops::{AddSpec, SubSpec};

verus! {

/// An instant on the scale tagged with `Unit`, stored as a bare `Repr` value.
///
/// The capability flags work as on [`crate::amount::Amount`]: `IS_COPY`
/// decides whether values may be duplicated implicitly, `HAS_DEFAULT`
/// whether the instant has a default value.
#[verifier::reject_recursive_types(Unit)]
pub struct Instant<const IS_COPY: bool, const HAS_DEFAULT: bool, Unit, Repr> {
    repr: Repr,
    marker: PhantomData<Unit>,
}

impl<const IS_COPY: bool, const HAS_DEFAULT: bool, Unit, Repr> View for Instant<
    IS_COPY,
    HAS_DEFAULT,
    Unit,
    Repr,
> {
    type V = Repr;

    /// An instant is, mathematically, nothing but its representation value.
    closed spec fn view(&self) -> Repr {
        self.repr
    }
}

impl<const IS_COPY: bool, const HAS_DEFAULT: bool, Unit, Repr> Instant<
    IS_COPY,
    HAS_DEFAULT,
    Unit,
    Repr,
> {
    /// The instant holding `v`, at the specification level.
    pub closed spec fn wrap_spec(v: Repr) -> Self {
        Instant { repr: v, marker: PhantomData }
    }

    /// Wraps a representation value. Construction never fails and performs no
    /// validation.
    pub fn new(repr: Repr) -> (r: Self)
        ensures
            r == Self::wrap_spec(repr),
            r@ == repr,
    {
        Instant { repr, marker: PhantomData }
    }

    /// Wrapping a value and reading it back yields that value.
    pub proof fn lemma_unwrap_construct(v: Repr)
        ensures
            Self::wrap_spec(v)@ == v,
    {
    }

    /// An instant carries no state besides its representation value:
    /// wrapping the value an instant holds yields that instant back.
    pub proof fn lemma_wrap_extensional(a: Self)
        ensures
            Self::wrap_spec(a@) == a,
    {
    }
}

impl<const IS_COPY: bool, const HAS_DEFAULT: bool, Unit, Repr: Copy> Instant<
    IS_COPY,
    HAS_DEFAULT,
    Unit,
    Repr,
> {
    /// Returns the wrapped representation value.
    pub fn get(&self) -> (r: Repr)
        ensures
            r == self@,
    {
        self.repr
    }
}

impl<const IS_COPY: bool, const HAS_DEFAULT: bool, Unit: Default, Repr> Instant<
    IS_COPY,
    HAS_DEFAULT,
    Unit,
    Repr,
> {
    /// A value of the unit marker, for tags that choose to be constructible.
    pub fn unit(&self) -> (r: Unit)
        ensures
            call_ensures(Unit::default, (), r),
    {
        Unit::default()
    }
}

impl<const IS_COPY: bool, const HAS_DEFAULT: bool, Unit, Repr> Instant<
    IS_COPY,
    HAS_DEFAULT,
    Unit,
    Repr,
> where Unit: crate::displayer::DisplayerOf<Self> {
    /// A borrowed proxy that renders this instant through the unit marker's
    /// own [`crate::displayer::DisplayerOf`] implementation.
    pub fn display(&self) -> (r: crate::displayer::DisplayProxy<'_, Self, Unit>)
        ensures
            r.target() == self,
    {
        crate::displayer::DisplayProxy::new(self)
    }
}

impl<const IS_COPY: bool, const HAS_DEFAULT: bool, Unit, Repr: Clone> Clone for Instant<
    IS_COPY,
    HAS_DEFAULT,
    Unit,
    Repr,
> {
    /// Duplicates the instant by cloning its representation.
    fn clone(&self) -> (r: Self)
        ensures
            vstd::pervasive::cloned::<Repr>(self@, r@),
    {
        Instant { repr: self.repr.clone(), marker: PhantomData }
    }
}

impl<const HAS_DEFAULT: bool, Unit, Repr: Copy> Copy for Instant<true, HAS_DEFAULT, Unit, Repr> {

}

impl<const IS_COPY: bool, Unit, Repr: Default> Default for Instant<IS_COPY, true, Unit, Repr> {
    /// The instant wrapping the representation's own default value.
    fn default() -> (r: Self)
        ensures
            call_ensures(Repr::default, (), r@),
    {
        Instant { repr: Repr::default(), marker: PhantomData }
    }
}

impl<const IS_COPY: bool, const HAS_DEFAULT: bool, Unit, Repr> From<Repr> for Instant<
    IS_COPY,
    HAS_DEFAULT,
    Unit,
    Repr,
> {
    /// Same as [`Instant::new`]: wraps the representation value unchanged.
    fn from(repr: Repr) -> (r: Self)
        ensures
            r == Self::wrap_spec(repr),
            r@ == repr,
    {
        Self::new(repr)
    }
}

impl<const IS_COPY: bool, const HAS_DEFAULT: bool, Unit, Repr> vstd::std_specs::convert::FromSpecImpl<Repr> for Instant<
    IS_COPY,
    HAS_DEFAULT,
    Unit,
    Repr,
> {
    open spec fn obeys_from_spec() -> bool {
        true
    }

    open spec fn from_spec(repr: Repr) -> Self {
        Self::wrap_spec(repr)
    }
}

impl<const IS_COPY: bool, const HAS_DEFAULT: bool, Unit, Repr: PartialEq> PartialEq for Instant<
    IS_COPY,
    HAS_DEFAULT,
    Unit,
    Repr,
> {
    /// Two instants of the same unit are equal exactly when their
    /// representation values are.
    fn eq(&self, other: &Self) -> bool {
        self.repr == other.repr
    }
}

impl<const IS_COPY: bool, const HAS_DEFAULT: bool, Unit, Repr: PartialEq> vstd::std_specs::cmp::PartialEqSpecImpl for Instant<
    IS_COPY,
    HAS_DEFAULT,
    Unit,
    Repr,
> {
    open spec fn obeys_eq_spec() -> bool {
        Repr::obeys_eq_spec()
    }

    open spec fn eq_spec(&self, other: &Self) -> bool {
        self@.eq_spec(&other@)
    }
}

impl<const IS_COPY: bool, const HAS_DEFAULT: bool, Unit, Repr: Eq> Eq for Instant<
    IS_COPY,
    HAS_DEFAULT,
    Unit,
    Repr,
> {

}

impl<const IS_COPY: bool, const HAS_DEFAULT: bool, Unit, Repr: PartialOrd> PartialOrd for Instant<
    IS_COPY,
    HAS_DEFAULT,
    Unit,
    Repr,
> {
    /// Instants of the same unit order exactly as their representation
    /// values.
    fn partial_cmp(&self, other: &Self) -> Option<core::cmp::Ordering> {
        self.repr.partial_cmp(&other.repr)
    }
}

impl<const IS_COPY: bool, const HAS_DEFAULT: bool, Unit, Repr: PartialOrd> vstd::std_specs::cmp::PartialOrdSpecImpl for Instant<
    IS_COPY,
    HAS_DEFAULT,
    Unit,
    Repr,
> {
    open spec fn obeys_partial_cmp_spec() -> bool {
        Repr::obeys_partial_cmp_spec()
    }

    open spec fn partial_cmp_spec(&self, other: &Self) -> Option<core::cmp::Ordering> {
        self@.partial_cmp_spec(&other@)
    }
}

impl<const IS_COPY: bool, const HAS_DEFAULT: bool, Unit, Repr> core::ops::Sub for Instant<
    IS_COPY,
    HAS_DEFAULT,
    Unit,
    Repr,
> where Repr: core::ops::Sub<Output = Repr> + Copy {
    type Output = Amount<IS_COPY, HAS_DEFAULT, Unit, Repr>;

    /// The difference of two instants of the same unit is an amount of that
    /// unit — a duration-like quantity, not another instant.
    fn sub(self, rhs: Self) -> (r: Self::Output)
        ensures
            Repr::obeys_sub_spec() ==> r == Amount::<IS_COPY, HAS_DEFAULT, Unit, Repr>::wrap_spec(
                self@.sub_spec(rhs@),
            ),
            Repr::obeys_sub_spec() ==> r@ == self@.sub_spec(rhs@),
    {
        Amount::new(self.repr - rhs.repr)
    }
}

impl<const IS_COPY: bool, const HAS_DEFAULT: bool, Unit, Repr> vstd::std_specs::ops::SubSpecImpl for Instant<
    IS_COPY,
    HAS_DEFAULT,
    Unit,
    Repr,
> where Repr: core::ops::Sub<Output = Repr> + Copy {
    open spec fn obeys_sub_spec() -> bool {
        Repr::obeys_sub_spec()
    }

    open spec fn sub_req(self, rhs: Self) -> bool {
        self@.sub_req(rhs@)
    }

    open spec fn sub_spec(self, rhs: Self) -> Self::Output {
        Amount::wrap_spec(self@.sub_spec(rhs@))
    }
}

impl<const IS_COPY: bool, const HAS_DEFAULT: bool, Unit, Repr> core::ops::Add<
    Amount<IS_COPY, HAS_DEFAULT, Unit, Repr>,
> for Instant<IS_COPY, HAS_DEFAULT, Unit, Repr> where Repr: core::ops::Add<Output = Repr> + Copy {
    type Output = Self;

    /// Moves the instant forward by an amount of the same unit. Adding two
    /// instants is deliberately not offered: it has no physical meaning.
    fn add(self, rhs: Amount<IS_COPY, HAS_DEFAULT, Unit, Repr>) -> (r: Self)
        ensures
            Repr::obeys_add_spec() ==> r == Self::wrap_spec(self@.add_spec(rhs@)),
            Repr::obeys_add_spec() ==> r@ == self@.add_spec(rhs@),
    {
        Instant { repr: self.repr + rhs.get(), marker: PhantomData }
    }
}

impl<const IS_COPY: bool, const HAS_DEFAULT: bool, Unit, Repr> vstd::std_specs::ops::AddSpecImpl<
    Amount<IS_COPY, HAS_DEFAULT, Unit, Repr>,
> for Instant<IS_COPY, HAS_DEFAULT, Unit, Repr> where Repr: core::ops::Add<Output = Repr> + Copy {
    open spec fn obeys_add_spec() -> bool {
        Repr::obeys_add_spec()
    }

    open spec fn add_req(self, rhs: Amount<IS_COPY, HAS_DEFAULT, Unit, Repr>) -> bool {
        self@.add_req(rhs@)
    }

    open spec fn add_spec(self, rhs: Amount<IS_COPY, HAS_DEFAULT, Unit, Repr>) -> Self {
        Self::wrap_spec(self@.add_spec(rhs@))
    }
}

/// Subtracting an earlier instant from a later one and adding the difference
/// back to the earlier instant returns the later one: for instants over
/// 64-bit unsigned integers, `b + (a - b) == a` whenever `b <= a`.
pub proof fn lemma_sub_then_add_back<const IS_COPY: bool, const HAS_DEFAULT: bool, Unit>(
    a: Instant<IS_COPY, HAS_DEFAULT, Unit, u64>,
    b: Instant<IS_COPY, HAS_DEFAULT, Unit, u64>,
)
    requires
        b@ <= a@,
    ensures
        b.add_spec(a.sub_spec(b)) == a,
{
    Amount::<IS_COPY, HAS_DEFAULT, Unit, u64>::lemma_unwrap_construct((a@ - b@) as u64);
}

/// Moving an instant forward by an amount and then subtracting the starting
/// instant yields that amount again: `(i + d) - i == d` for instants over
/// 64-bit unsigned integers, whenever the sum stays representable.
pub proof fn lemma_advance_then_sub<const IS_COPY: bool, const HAS_DEFAULT: bool, Unit>(
    i: Instant<IS_COPY, HAS_DEFAULT, Unit, u64>,
    d: Amount<IS_COPY, HAS_DEFAULT, Unit, u64>,
)
    requires
        i@ + d@ <= u64::MAX,
    ensures
        i.add_spec(d).sub_spec(i) == d,
{
    Amount::<IS_COPY, HAS_DEFAULT, Unit, u64>::lemma_wrap_extensional(d);
}

} // verus!
