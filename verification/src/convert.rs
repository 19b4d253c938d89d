//! Explicit widening and narrowing between representations.
//!
//! A wrapper never changes its unit; it may change its representation, and
//! only explicitly. [`ReprConvert`] relates a narrow representation to a
//! wider one: widening is total and lossless, narrowing back is either
//! checked (returning nothing when the value does not fit) or unchecked (the
//! caller proves that it fits, and no run-time check remains). The wrapper
//! methods built on it keep the unit marker fixed, so a conversion can never
//! silently cross tags.

use crate::amount::Amount;
use crate::id::Id;
use crate::instant::Instant;
use vstd::prelude::*;

verus! {

/// A lossless embedding of this representation into the wider type `Wide`,
/// together with its partial inverse. Implementations must prove the two
/// round-trip laws below.
pub trait ReprConvert<Wide>: Sized {
    /// The image of this value in the wider representation.
    spec fn spec_widen(self) -> Wide;

    /// Whether `w` is the image of some value of this representation.
    spec fn spec_in_range(w: Wide) -> bool;

    /// The preimage of an in-range wide value.
    spec fn spec_narrow(w: Wide) -> Self;

    /// Widening always lands in range, and narrowing back restores the value.
    proof fn lemma_widen_in_range(self)
        ensures
            Self::spec_in_range(self.spec_widen()),
            Self::spec_narrow(self.spec_widen()) == self,
    ;

    /// Widening the narrowed value restores an in-range wide value.
    proof fn lemma_narrow_then_widen(w: Wide)
        requires
            Self::spec_in_range(w),
        ensures
            Self::spec_narrow(w).spec_widen() == w,
    ;

    /// Converts into the wider representation; never fails.
    fn widen(self) -> (w: Wide)
        ensures
            w == self.spec_widen(),
    ;

    /// Checked narrowing: returns the preimage exactly when the value fits.
    fn narrow(w: Wide) -> (r: Option<Self>)
        ensures
            Self::spec_in_range(w) ==> (r matches Some(v) && v == Self::spec_narrow(w)),
            !Self::spec_in_range(w) ==> r is None,
    ;

    /// Unchecked narrowing: the caller proves the value fits, and no
    /// run-time check is performed.
    fn narrow_unchecked(w: Wide) -> (r: Self)
        requires
            Self::spec_in_range(w),
        ensures
            r == Self::spec_narrow(w),
    ;
}

impl ReprConvert<u64> for u8 {
    open spec fn spec_widen(self) -> u64 {
        self as u64
    }

    open spec fn spec_in_range(w: u64) -> bool {
        w <= u8::MAX
    }

    open spec fn spec_narrow(w: u64) -> u8 {
        w as u8
    }

    proof fn lemma_widen_in_range(self) {
    }

    proof fn lemma_narrow_then_widen(w: u64) {
    }

    fn widen(self) -> u64 {
        self as u64
    }

    fn narrow(w: u64) -> Option<u8> {
        if w <= u8::MAX as u64 {
            Some(w as u8)
        } else {
            None
        }
    }

    fn narrow_unchecked(w: u64) -> u8 {
        w as u8
    }
}

impl ReprConvert<u64> for u32 {
    open spec fn spec_widen(self) -> u64 {
        self as u64
    }

    open spec fn spec_in_range(w: u64) -> bool {
        w <= u32::MAX
    }

    open spec fn spec_narrow(w: u64) -> u32 {
        w as u32
    }

    proof fn lemma_widen_in_range(self) {
    }

    proof fn lemma_narrow_then_widen(w: u64) {
    }

    fn widen(self) -> u64 {
        self as u64
    }

    fn narrow(w: u64) -> Option<u32> {
        if w <= u32::MAX as u64 {
            Some(w as u32)
        } else {
            None
        }
    }

    fn narrow_unchecked(w: u64) -> u32 {
        w as u32
    }
}

impl ReprConvert<u128> for u64 {
    open spec fn spec_widen(self) -> u128 {
        self as u128
    }

    open spec fn spec_in_range(w: u128) -> bool {
        w <= u64::MAX
    }

    open spec fn spec_narrow(w: u128) -> u64 {
        w as u64
    }

    proof fn lemma_widen_in_range(self) {
    }

    proof fn lemma_narrow_then_widen(w: u128) {
    }

    fn widen(self) -> u128 {
        self as u128
    }

    fn narrow(w: u128) -> Option<u64> {
        if w <= u64::MAX as u128 {
            Some(w as u64)
        } else {
            None
        }
    }

    fn narrow_unchecked(w: u128) -> u64 {
        w as u64
    }
}

impl<const IS_COPY: bool, const HAS_DEFAULT: bool, Unit, Repr: Copy> Amount<
    IS_COPY,
    HAS_DEFAULT,
    Unit,
    Repr,
> {
    /// Losslessly converts the amount to a wider representation of the same
    /// unit.
    pub fn widen<Wide>(self) -> (r: Amount<IS_COPY, HAS_DEFAULT, Unit, Wide>) where
        Repr: ReprConvert<Wide>,

        ensures
            r@ == self@.spec_widen(),
    {
        Amount::new(self.get().widen())
    }

    /// Checked narrowing to a smaller representation of the same unit:
    /// returns the narrowed amount exactly when the value fits.
    pub fn narrow<Narrow>(self) -> (r: Option<
        Amount<IS_COPY, HAS_DEFAULT, Unit, Narrow>,
    >) where Narrow: ReprConvert<Repr>
        ensures
            Narrow::spec_in_range(self@) ==> (r matches Some(a) && a@ == Narrow::spec_narrow(
                self@,
            )),
            !Narrow::spec_in_range(self@) ==> r is None,
    {
        match Narrow::narrow(self.get()) {
            Some(v) => Some(Amount::new(v)),
            None => None,
        }
    }

    /// Unchecked narrowing: the caller proves the value fits.
    pub fn narrow_unchecked<Narrow>(self) -> (r: Amount<
        IS_COPY,
        HAS_DEFAULT,
        Unit,
        Narrow,
    >) where Narrow: ReprConvert<Repr>
        requires
            Narrow::spec_in_range(self@),
        ensures
            r@ == Narrow::spec_narrow(self@),
    {
        Amount::new(Narrow::narrow_unchecked(self.get()))
    }
}

impl<const IS_COPY: bool, const HAS_DEFAULT: bool, Unit, Repr: Copy> Id<
    IS_COPY,
    HAS_DEFAULT,
    Unit,
    Repr,
> {
    /// Losslessly converts the identifier to a wider representation of the
    /// same unit.
    pub fn widen<Wide>(self) -> (r: Id<IS_COPY, HAS_DEFAULT, Unit, Wide>) where
        Repr: ReprConvert<Wide>,

        ensures
            r@ == self@.spec_widen(),
    {
        Id::new(self.get().widen())
    }

    /// Checked narrowing to a smaller representation of the same unit.
    pub fn narrow<Narrow>(self) -> (r: Option<Id<IS_COPY, HAS_DEFAULT, Unit, Narrow>>) where
        Narrow: ReprConvert<Repr>,

        ensures
            Narrow::spec_in_range(self@) ==> (r matches Some(a) && a@ == Narrow::spec_narrow(
                self@,
            )),
            !Narrow::spec_in_range(self@) ==> r is None,
    {
        match Narrow::narrow(self.get()) {
            Some(v) => Some(Id::new(v)),
            None => None,
        }
    }
}

impl<const IS_COPY: bool, const HAS_DEFAULT: bool, Unit, Repr: Copy> Instant<
    IS_COPY,
    HAS_DEFAULT,
    Unit,
    Repr,
> {
    /// Losslessly converts the instant to a wider representation of the same
    /// unit.
    pub fn widen<Wide>(self) -> (r: Instant<IS_COPY, HAS_DEFAULT, Unit, Wide>) where
        Repr: ReprConvert<Wide>,

        ensures
            r@ == self@.spec_widen(),
    {
        Instant::new(self.get().widen())
    }

    /// Checked narrowing to a smaller representation of the same unit.
    pub fn narrow<Narrow>(self) -> (r: Option<Instant<IS_COPY, HAS_DEFAULT, Unit, Narrow>>) where
        Narrow: ReprConvert<Repr>,

        ensures
            Narrow::spec_in_range(self@) ==> (r matches Some(a) && a@ == Narrow::spec_narrow(
                self@,
            )),
            !Narrow::spec_in_range(self@) ==> r is None,
    {
        match Narrow::narrow(self.get()) {
            Some(v) => Some(Instant::new(v)),
            None => None,
        }
    }
}

} // verus!
