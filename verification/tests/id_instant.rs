use phantom_newtype::{Amount, Id, IdNoCopy, Instant, InstantNoDefault};

enum User {}
enum Message {}
enum Ticks {}

type UserId = Id<User, u64>;
type MsgId = Id<Message, u64>;

#[test]
fn id_roundtrip_and_equality() {
    assert_eq!(UserId::new(17).get(), 17);
    assert!(UserId::from(17) == UserId::from(17));
    assert!(UserId::from(1) != UserId::from(2));
    assert!(UserId::from(1) < UserId::from(2));
    assert_eq!(MsgId::from(1).partial_cmp(&MsgId::from(2)), 1u64.partial_cmp(&2));
}

#[test]
fn id_default_and_clone() {
    assert_eq!(UserId::default().get(), 0);
    let a = IdNoCopy::<User, u64>::from(9);
    let b = a.clone();
    assert!(a == b);
}

#[test]
fn instant_minus_instant_is_amount() {
    let later = Instant::<Ticks, u64>::from(10);
    let earlier = Instant::<Ticks, u64>::from(3);
    let duration: Amount<Ticks, u64> = later - earlier;
    assert!(duration == Amount::<Ticks, u64>::from(7));
}

#[test]
fn instant_plus_amount_is_instant() {
    let earlier = Instant::<Ticks, u64>::from(3);
    let duration = Amount::<Ticks, u64>::from(7);
    assert!(earlier + duration == Instant::<Ticks, u64>::from(10));
}

#[test]
fn instant_ordering_and_default() {
    assert!(Instant::<Ticks, u64>::from(3) < Instant::<Ticks, u64>::from(5));
    assert_eq!(Instant::<Ticks, u64>::default().get(), 0);
    let x = InstantNoDefault::<Ticks, u64>::from(4);
    let y = x;
    assert!(x == y);
}

#[test]
fn variant_wrappers_add_no_size() {
    assert_eq!(core::mem::size_of::<UserId>(), core::mem::size_of::<u64>());
    assert_eq!(
        core::mem::size_of::<Instant<Ticks, u32>>(),
        core::mem::size_of::<u32>()
    );
}
