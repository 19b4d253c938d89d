//! The general-purpose tagged quantity.
//!
//! `Amount<IS_COPY, HAS_DEFAULT, Unit, Repr>` stores one `Repr` value and a
//! zero-size marker for `Unit`. All operations delegate to the representation;
//! the marker only keeps distinct units apart in the type system.

use core::marker::PhantomData;
use vstd::prelude::*;
use vstd::std_specs::cmp::{PartialEqSpec, PartialOrdSpec};
use vstd::std_specs::ops::{AddSpec, DivSpec, MulSpec, SubSpec};

verus! {

/// A quantity of some `Unit`, stored as a bare `Repr` value.
///
/// `Unit` is never instantiated: it exists only to make `Amount<_, _, Apples, u64>`
/// and `Amount<_, _, Oranges, u64>` different types. The two const parameters
/// are the capability flags: `IS_COPY` decides whether values may be duplicated
/// implicitly, `HAS_DEFAULT` whether the wrapper has a default value.
#[verifier::reject_recursive_types(Unit)]
pub struct Amount<const IS_COPY: bool, const HAS_DEFAULT: bool, Unit, Repr> {
    repr: Repr,
    marker: PhantomData<Unit>,
}

impl<const IS_COPY: bool, const HAS_DEFAULT: bool, Unit, Repr> View for Amount<
    IS_COPY,
    HAS_DEFAULT,
    Unit,
    Repr,
> {
    type V = Repr;

    /// An amount is, mathematically, nothing but its representation value.
    closed spec fn view(&self) -> Repr {
        self.repr
    }
}

impl<const IS_COPY: bool, const HAS_DEFAULT: bool, Unit, Repr> Amount<
    IS_COPY,
    HAS_DEFAULT,
    Unit,
    Repr,
> {
    /// The amount holding `v`, at the specification level.
    pub closed spec fn wrap_spec(v: Repr) -> Self {
        Amount { repr: v, marker: PhantomData }
    }

    /// Wraps a representation value. Construction never fails and performs no
    /// validation: the wrapper accepts every value its representation can hold.
    pub fn new(repr: Repr) -> (r: Self)
        ensures
            r == Self::wrap_spec(repr),
            r@ == repr,
    {
        Amount { repr, marker: PhantomData }
    }

    /// Wrapping a value and reading it back yields that value.
    pub proof fn lemma_unwrap_construct(v: Repr)
        ensures
            Self::wrap_spec(v)@ == v,
    {
    }

    /// An amount carries no state besides its representation value: wrapping
    /// the value an amount holds yields that amount back.
    pub proof fn lemma_wrap_extensional(a: Self)
        ensures
            Self::wrap_spec(a@) == a,
    {
    }
}

impl<const IS_COPY: bool, const HAS_DEFAULT: bool, Unit, Repr: Copy> Amount<
    IS_COPY,
    HAS_DEFAULT,
    Unit,
    Repr,
> {
    /// Returns the wrapped representation value.
    pub fn get(&self) -> (r: Repr)
        ensures
            r == self@,
    {
        self.repr
    }
}

impl<const IS_COPY: bool, const HAS_DEFAULT: bool, Unit: Default, Repr> Amount<
    IS_COPY,
    HAS_DEFAULT,
    Unit,
    Repr,
> {
    /// A value of the unit marker, for tags that choose to be constructible
    /// (for example to be printed next to the amount).
    pub fn unit(&self) -> (r: Unit)
        ensures
            call_ensures(Unit::default, (), r),
    {
        Unit::default()
    }
}

impl<const IS_COPY: bool, const HAS_DEFAULT: bool, Unit, Repr: Clone> Clone for Amount<
    IS_COPY,
    HAS_DEFAULT,
    Unit,
    Repr,
> {
    /// Duplicates the amount by cloning its representation; the marker carries
    /// no state. Available whenever the representation itself can be cloned.
    fn clone(&self) -> (r: Self)
        ensures
            vstd::pervasive::cloned::<Repr>(self@, r@),
    {
        Amount { repr: self.repr.clone(), marker: PhantomData }
    }
}

impl<const HAS_DEFAULT: bool, Unit, Repr: Copy> Copy for Amount<true, HAS_DEFAULT, Unit, Repr> {

}

impl<const IS_COPY: bool, Unit, Repr: Default> Default for Amount<IS_COPY, true, Unit, Repr> {
    /// The amount wrapping the representation's own default value. Available
    /// only when the `HAS_DEFAULT` capability flag is set and `Repr` itself
    /// has a default.
    fn default() -> (r: Self)
        ensures
            call_ensures(Repr::default, (), r@),
    {
        Amount { repr: Repr::default(), marker: PhantomData }
    }
}

impl<const IS_COPY: bool, const HAS_DEFAULT: bool, Unit, Repr> Amount<
    IS_COPY,
    HAS_DEFAULT,
    Unit,
    Repr,
> where Unit: crate::displayer::DisplayerOf<Self> {
    /// A borrowed proxy that renders this amount through the unit marker's
    /// own [`crate::displayer::DisplayerOf`] implementation, for units that
    /// want a custom textual form.
    pub fn display(&self) -> (r: crate::displayer::DisplayProxy<'_, Self, Unit>)
        ensures
            r.target() == self,
    {
        crate::displayer::DisplayProxy::new(self)
    }
}

impl<const IS_COPY: bool, const HAS_DEFAULT: bool, Unit, Repr> From<Repr> for Amount<
    IS_COPY,
    HAS_DEFAULT,
    Unit,
    Repr,
> {
    /// Same as [`Amount::new`]: wraps the representation value unchanged.
    fn from(repr: Repr) -> (r: Self)
        ensures
            r == Self::wrap_spec(repr),
            r@ == repr,
    {
        Self::new(repr)
    }
}

impl<const IS_COPY: bool, const HAS_DEFAULT: bool, Unit, Repr> vstd::std_specs::convert::FromSpecImpl<Repr> for Amount<
    IS_COPY,
    HAS_DEFAULT,
    Unit,
    Repr,
> {
    open spec fn obeys_from_spec() -> bool {
        true
    }

    open spec fn from_spec(repr: Repr) -> Self {
        Self::wrap_spec(repr)
    }
}

impl<const IS_COPY: bool, const HAS_DEFAULT: bool, Unit, Repr: PartialEq> PartialEq for Amount<
    IS_COPY,
    HAS_DEFAULT,
    Unit,
    Repr,
> {
    /// Two amounts of the same unit are equal exactly when their
    /// representation values are; the marker takes no part. Amounts of
    /// different units cannot even be compared: they are different types.
    fn eq(&self, other: &Self) -> bool {
        self.repr == other.repr
    }
}

impl<const IS_COPY: bool, const HAS_DEFAULT: bool, Unit, Repr: PartialEq> vstd::std_specs::cmp::PartialEqSpecImpl for Amount<
    IS_COPY,
    HAS_DEFAULT,
    Unit,
    Repr,
> {
    open spec fn obeys_eq_spec() -> bool {
        Repr::obeys_eq_spec()
    }

    open spec fn eq_spec(&self, other: &Self) -> bool {
        self@.eq_spec(&other@)
    }
}

impl<const IS_COPY: bool, const HAS_DEFAULT: bool, Unit, Repr: Eq> Eq for Amount<
    IS_COPY,
    HAS_DEFAULT,
    Unit,
    Repr,
> {

}

impl<const IS_COPY: bool, const HAS_DEFAULT: bool, Unit, Repr: PartialOrd> PartialOrd for Amount<
    IS_COPY,
    HAS_DEFAULT,
    Unit,
    Repr,
> {
    /// Amounts of the same unit order exactly as their representation values.
    fn partial_cmp(&self, other: &Self) -> Option<core::cmp::Ordering> {
        self.repr.partial_cmp(&other.repr)
    }
}

impl<const IS_COPY: bool, const HAS_DEFAULT: bool, Unit, Repr: PartialOrd> vstd::std_specs::cmp::PartialOrdSpecImpl for Amount<
    IS_COPY,
    HAS_DEFAULT,
    Unit,
    Repr,
> {
    open spec fn obeys_partial_cmp_spec() -> bool {
        Repr::obeys_partial_cmp_spec()
    }

    open spec fn partial_cmp_spec(&self, other: &Self) -> Option<core::cmp::Ordering> {
        self@.partial_cmp_spec(&other@)
    }
}

impl<const IS_COPY: bool, const HAS_DEFAULT: bool, Unit, Repr> Amount<
    IS_COPY,
    HAS_DEFAULT,
    Unit,
    Repr,
> where Repr: core::ops::Add<Output = Repr> + Copy {
    /// Adds an amount of the same unit in place.
    pub fn add_assign(&mut self, rhs: Self)
        requires
            old(self)@.add_req(rhs@),
        ensures
            Repr::obeys_add_spec() ==> final(self)@ == old(self)@.add_spec(rhs@),
    {
        self.repr = self.repr + rhs.repr;
    }
}

impl<const IS_COPY: bool, const HAS_DEFAULT: bool, Unit, Repr> Amount<
    IS_COPY,
    HAS_DEFAULT,
    Unit,
    Repr,
> where Repr: core::ops::Sub<Output = Repr> + Copy {
    /// Subtracts an amount of the same unit in place.
    pub fn sub_assign(&mut self, rhs: Self)
        requires
            old(self)@.sub_req(rhs@),
        ensures
            Repr::obeys_sub_spec() ==> final(self)@ == old(self)@.sub_spec(rhs@),
    {
        self.repr = self.repr - rhs.repr;
    }
}

impl<const IS_COPY: bool, const HAS_DEFAULT: bool, Unit, Repr> Amount<
    IS_COPY,
    HAS_DEFAULT,
    Unit,
    Repr,
> where Repr: core::ops::Mul<Output = Repr> + Copy {
    /// Scales the amount in place by a bare scalar of the representation
    /// type.
    pub fn mul_assign(&mut self, rhs: Repr)
        requires
            old(self)@.mul_req(rhs),
        ensures
            Repr::obeys_mul_spec() ==> final(self)@ == old(self)@.mul_spec(rhs),
    {
        self.repr = self.repr * rhs;
    }
}

impl<const IS_COPY: bool, const HAS_DEFAULT: bool, Unit, Repr> core::ops::Add for Amount<
    IS_COPY,
    HAS_DEFAULT,
    Unit,
    Repr,
> where Repr: core::ops::Add<Output = Repr> + Copy {
    type Output = Self;

    /// Adds two amounts of the same unit; the sum keeps that unit. Defined
    /// only between equal units and representations — adding an amount of a
    /// different unit does not type-check. The representation's own
    /// precondition (for integers: no overflow) is inherited unchanged.
    fn add(self, rhs: Self) -> (r: Self)
        ensures
            Repr::obeys_add_spec() ==> r == Self::wrap_spec(self@.add_spec(rhs@)),
            Repr::obeys_add_spec() ==> r@ == self@.add_spec(rhs@),
    {
        Amount { repr: self.repr + rhs.repr, marker: PhantomData }
    }
}

impl<const IS_COPY: bool, const HAS_DEFAULT: bool, Unit, Repr> vstd::std_specs::ops::AddSpecImpl for Amount<
    IS_COPY,
    HAS_DEFAULT,
    Unit,
    Repr,
> where Repr: core::ops::Add<Output = Repr> + Copy {
    open spec fn obeys_add_spec() -> bool {
        Repr::obeys_add_spec()
    }

    open spec fn add_req(self, rhs: Self) -> bool {
        self@.add_req(rhs@)
    }

    open spec fn add_spec(self, rhs: Self) -> Self {
        Self::wrap_spec(self@.add_spec(rhs@))
    }
}

impl<const IS_COPY: bool, const HAS_DEFAULT: bool, Unit, Repr> core::ops::Sub for Amount<
    IS_COPY,
    HAS_DEFAULT,
    Unit,
    Repr,
> where Repr: core::ops::Sub<Output = Repr> + Copy {
    type Output = Self;

    /// Subtracts an amount of the same unit; the difference keeps that unit.
    fn sub(self, rhs: Self) -> (r: Self)
        ensures
            Repr::obeys_sub_spec() ==> r == Self::wrap_spec(self@.sub_spec(rhs@)),
            Repr::obeys_sub_spec() ==> r@ == self@.sub_spec(rhs@),
    {
        Amount { repr: self.repr - rhs.repr, marker: PhantomData }
    }
}

impl<const IS_COPY: bool, const HAS_DEFAULT: bool, Unit, Repr> vstd::std_specs::ops::SubSpecImpl for Amount<
    IS_COPY,
    HAS_DEFAULT,
    Unit,
    Repr,
> where Repr: core::ops::Sub<Output = Repr> + Copy {
    open spec fn obeys_sub_spec() -> bool {
        Repr::obeys_sub_spec()
    }

    open spec fn sub_req(self, rhs: Self) -> bool {
        self@.sub_req(rhs@)
    }

    open spec fn sub_spec(self, rhs: Self) -> Self {
        Self::wrap_spec(self@.sub_spec(rhs@))
    }
}

impl<const IS_COPY: bool, const HAS_DEFAULT: bool, Unit, Repr> core::ops::Mul<Repr> for Amount<
    IS_COPY,
    HAS_DEFAULT,
    Unit,
    Repr,
> where Repr: core::ops::Mul<Output = Repr> + Copy {
    type Output = Self;

    /// Scales the amount by a bare scalar of the representation type.
    /// Multiplying two amounts is deliberately not offered: the product of two
    /// quantities of one unit is a quantity of a different unit, which this
    /// library does not model.
    fn mul(self, rhs: Repr) -> (r: Self)
        ensures
            Repr::obeys_mul_spec() ==> r == Self::wrap_spec(self@.mul_spec(rhs)),
            Repr::obeys_mul_spec() ==> r@ == self@.mul_spec(rhs),
    {
        Amount { repr: self.repr * rhs, marker: PhantomData }
    }
}

impl<const IS_COPY: bool, const HAS_DEFAULT: bool, Unit, Repr> vstd::std_specs::ops::MulSpecImpl<Repr> for Amount<
    IS_COPY,
    HAS_DEFAULT,
    Unit,
    Repr,
> where Repr: core::ops::Mul<Output = Repr> + Copy {
    open spec fn obeys_mul_spec() -> bool {
        Repr::obeys_mul_spec()
    }

    open spec fn mul_req(self, rhs: Repr) -> bool {
        self@.mul_req(rhs)
    }

    open spec fn mul_spec(self, rhs: Repr) -> Self {
        Self::wrap_spec(self@.mul_spec(rhs))
    }
}

impl<const IS_COPY: bool, const HAS_DEFAULT: bool, Unit, Repr> core::ops::Div for Amount<
    IS_COPY,
    HAS_DEFAULT,
    Unit,
    Repr,
> where Repr: core::ops::Div + Copy {
    type Output = <Repr as core::ops::Div>::Output;

    /// Divides two amounts of the same unit. The quotient is a bare value of
    /// the representation's quotient type, not an amount: the ratio of two
    /// same-unit quantities is dimensionless. For integer representations the
    /// divisor must be nonzero.
    fn div(self, rhs: Self) -> (r: Self::Output)
        ensures
            Repr::obeys_div_spec() ==> r == self@.div_spec(rhs@),
    {
        self.repr / rhs.repr
    }
}

impl<const IS_COPY: bool, const HAS_DEFAULT: bool, Unit, Repr> vstd::std_specs::ops::DivSpecImpl for Amount<
    IS_COPY,
    HAS_DEFAULT,
    Unit,
    Repr,
> where Repr: core::ops::Div + Copy {
    open spec fn obeys_div_spec() -> bool {
        Repr::obeys_div_spec()
    }

    open spec fn div_req(self, rhs: Self) -> bool {
        self@.div_req(rhs@)
    }

    open spec fn div_spec(self, rhs: Self) -> Self::Output {
        self@.div_spec(rhs@)
    }
}

/// Equality on amounts is exactly equality on the unwrapped representation
/// values: the unit marker takes no part in the comparison.
pub proof fn lemma_eq_delegates_to_repr<
    const IS_COPY: bool,
    const HAS_DEFAULT: bool,
    Unit,
    Repr: PartialEq,
>(a: Amount<IS_COPY, HAS_DEFAULT, Unit, Repr>, b: Amount<IS_COPY, HAS_DEFAULT, Unit, Repr>)
    ensures
        a.eq_spec(&b) == a@.eq_spec(&b@),
        Amount::<IS_COPY, HAS_DEFAULT, Unit, Repr>::obeys_eq_spec() == Repr::obeys_eq_spec(),
{
}

/// Ordering on amounts is exactly ordering on the unwrapped representation
/// values: `partial_cmp` returns what the representations' comparison returns.
pub proof fn lemma_ord_delegates_to_repr<
    const IS_COPY: bool,
    const HAS_DEFAULT: bool,
    Unit,
    Repr: PartialOrd,
>(a: Amount<IS_COPY, HAS_DEFAULT, Unit, Repr>, b: Amount<IS_COPY, HAS_DEFAULT, Unit, Repr>)
    ensures
        a.partial_cmp_spec(&b) == a@.partial_cmp_spec(&b@),
        Amount::<IS_COPY, HAS_DEFAULT, Unit, Repr>::obeys_partial_cmp_spec()
            == Repr::obeys_partial_cmp_spec(),
{
}

/// Adding an amount and then subtracting it leads back to the start:
/// `(a + b) - b == a` for amounts over 64-bit unsigned integers, whenever the
/// sum stays representable.
pub proof fn lemma_add_then_sub<const IS_COPY: bool, const HAS_DEFAULT: bool, Unit>(
    a: Amount<IS_COPY, HAS_DEFAULT, Unit, u64>,
    b: Amount<IS_COPY, HAS_DEFAULT, Unit, u64>,
)
    requires
        a@ + b@ <= u64::MAX,
    ensures
        a.add_spec(b).sub_spec(b) == a,
{
}

/// Scaling an amount by `k` and dividing the result by that same amount
/// yields the bare scalar `k` again: `(a * k) / a == k` for nonzero `a` over
/// 64-bit unsigned integers, whenever the product stays representable.
pub proof fn lemma_scale_then_div<const IS_COPY: bool, const HAS_DEFAULT: bool, Unit>(
    a: Amount<IS_COPY, HAS_DEFAULT, Unit, u64>,
    k: u64,
)
    requires
        a@ != 0,
        a@ * k <= u64::MAX,
    ensures
        a.mul_spec(k).div_spec(a) == k,
{
    assert((a@ * k) as u64 / a@ == k) by (nonlinear_arith)
        requires
            a@ != 0,
            a@ * k <= u64::MAX,
    ;
}

/// An amount divided by itself is the dimensionless scalar one, for nonzero
/// amounts over 64-bit unsigned integers.
pub proof fn lemma_div_self<const IS_COPY: bool, const HAS_DEFAULT: bool, Unit>(
    a: Amount<IS_COPY, HAS_DEFAULT, Unit, u64>,
)
    requires
        a@ != 0,
    ensures
        a.div_spec(a) == 1u64,
{
}

} // verus!
