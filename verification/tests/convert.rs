use phantom_newtype::convert::ReprConvert;
use phantom_newtype::{Amount, Id, Instant};

enum Meters {}
enum User {}
enum Ticks {}

#[test]
fn widen_keeps_value_and_unit_repr_changes() {
    let short = Amount::<Meters, u32>::from(9);
    let wide: Amount<Meters, u64> = short.widen();
    assert_eq!(wide.get(), 9);
    let wider: Amount<Meters, u128> = wide.widen();
    assert_eq!(wider.get(), 9);
}

#[test]
fn narrow_succeeds_exactly_in_range() {
    let fits = Amount::<Meters, u64>::from(u32::MAX as u64);
    let narrowed: Option<Amount<Meters, u32>> = fits.narrow();
    assert_eq!(narrowed.unwrap().get(), u32::MAX);

    let too_big = Amount::<Meters, u64>::from(u32::MAX as u64 + 1);
    let missing: Option<Amount<Meters, u32>> = too_big.narrow();
    assert!(missing.is_none());

    let tiny: Option<Amount<Meters, u8>> = Amount::<Meters, u64>::from(255).narrow();
    assert_eq!(tiny.unwrap().get(), 255);
    let none: Option<Amount<Meters, u8>> = Amount::<Meters, u64>::from(256).narrow();
    assert!(none.is_none());
}

#[test]
fn unchecked_narrowing_of_in_range_values() {
    let a = Amount::<Meters, u64>::from(123);
    let narrowed: Amount<Meters, u32> = a.narrow_unchecked();
    assert_eq!(narrowed.get(), 123);
}

#[test]
fn widen_then_narrow_roundtrips() {
    for v in [0u32, 1, 77, u32::MAX] {
        let a = Amount::<Meters, u32>::from(v);
        let back: Option<Amount<Meters, u32>> = a.widen::<u64>().narrow();
        assert!(back.unwrap() == a);
    }
}

#[test]
fn repr_level_conversions() {
    assert_eq!(ReprConvert::<u64>::widen(7u32), 7u64);
    assert_eq!(<u32 as ReprConvert<u64>>::narrow(7u64), Some(7u32));
    assert_eq!(<u32 as ReprConvert<u64>>::narrow(u64::MAX), None);
    assert_eq!(<u32 as ReprConvert<u64>>::narrow_unchecked(12u64), 12u32);
    assert_eq!(<u8 as ReprConvert<u64>>::narrow(255u64), Some(255u8));
    assert_eq!(<u64 as ReprConvert<u128>>::narrow(5u128), Some(5u64));
}

#[test]
fn id_and_instant_conversions() {
    let id = Id::<User, u32>::from(11);
    let wide: Id<User, u64> = id.widen();
    assert_eq!(wide.get(), 11);
    let back: Option<Id<User, u32>> = wide.narrow();
    assert!(back.unwrap() == id);

    let t = Instant::<Ticks, u32>::from(4);
    let wide: Instant<Ticks, u64> = t.widen();
    let back: Option<Instant<Ticks, u32>> = wide.narrow();
    assert!(back.unwrap() == t);
}
