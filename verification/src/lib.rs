//! Type-safe tagged wrappers around a plain representation value.
//!
//! A wrapper couples a representation type `Repr` (the value that exists at
//! run time) with a marker type `Unit` that exists only in the type system:
//! two wrappers over the same representation but different markers are
//! distinct types, so amounts of apples can never be mixed with amounts of
//! oranges. The marker is carried by a `PhantomData` field, so a wrapper costs
//! nothing over the bare representation.
//!
//! Three wrapper kinds share the pattern:
//! - [`amount::Amount`]: a quantity; supports arithmetic.
//! - [`id::Id`]: an ordinal identifier; equality and ordering only.
//! - [`instant::Instant`]: a point on a scale; the difference of two instants
//!   is an [`amount::Amount`], and an amount can be added to an instant.
//!
//! Each wrapper is parameterized by two compile-time capability flags,
//! `IS_COPY` and `HAS_DEFAULT`, which decide whether values of the wrapper may
//! be duplicated implicitly and whether the wrapper has a default value. The
//! four combinations are available under short aliases below; the common
//! "copyable with a default" case gets the unqualified name.

use vstd::prelude::*;

pub mod amount;
pub mod codec;
pub mod convert;
pub mod decimal;
pub mod displayer;
pub mod id;
pub mod instant;

pub use convert::ReprConvert;
pub use displayer::{DisplayProxy, DisplayerOf};

verus! {

/// The default flavor of [`amount::Amount`]: copyable, with a default value.
pub type Amount<Unit, Repr> = crate::amount::Amount<true, true, Unit, Repr>;

/// An amount that must be moved rather than copied.
pub type AmountNoCopy<Unit, Repr> = crate::amount::Amount<false, true, Unit, Repr>;

/// A copyable amount without a default value.
pub type AmountNoDefault<Unit, Repr> = crate::amount::Amount<true, false, Unit, Repr>;

/// An amount that is neither copyable nor has a default value.
pub type AmountNoCopyNoDefault<Unit, Repr> = crate::amount::Amount<false, false, Unit, Repr>;

/// The default flavor of [`id::Id`]: copyable, with a default value.
pub type Id<Unit, Repr> = crate::id::Id<true, true, Unit, Repr>;

/// An identifier that must be moved rather than copied.
pub type IdNoCopy<Unit, Repr> = crate::id::Id<false, true, Unit, Repr>;

/// A copyable identifier without a default value.
pub type IdNoDefault<Unit, Repr> = crate::id::Id<true, false, Unit, Repr>;

/// An identifier that is neither copyable nor has a default value.
pub type IdNoCopyNoDefault<Unit, Repr> = crate::id::Id<false, false, Unit, Repr>;

/// The default flavor of [`instant::Instant`]: copyable, with a default value.
pub type Instant<Unit, Repr> = crate::instant::Instant<true, true, Unit, Repr>;

/// An instant that must be moved rather than copied.
pub type InstantNoCopy<Unit, Repr> = crate::instant::Instant<false, true, Unit, Repr>;

/// A copyable instant without a default value.
pub type InstantNoDefault<Unit, Repr> = crate::instant::Instant<true, false, Unit, Repr>;

/// An instant that is neither copyable nor has a default value.
pub type InstantNoCopyNoDefault<Unit, Repr> = crate::instant::Instant<false, false, Unit, Repr>;

} // verus!
