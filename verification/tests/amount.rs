use phantom_newtype::{Amount, AmountNoCopy, AmountNoCopyNoDefault, AmountNoDefault};

enum Apples {}
enum Oranges {}
enum Meters {}

type NumApples = Amount<Apples, u64>;

#[test]
fn unwrap_returns_constructed_value() {
    assert_eq!(NumApples::new(42).get(), 42);
    assert_eq!(NumApples::from(0).get(), 0);
    assert_eq!(NumApples::from(u64::MAX).get(), u64::MAX);
}

#[test]
fn addition_of_same_unit() {
    assert!(NumApples::from(3) + NumApples::from(5) == NumApples::from(8));
    let x = Amount::<Oranges, u64>::from(5);
    assert!(x + x == Amount::<Oranges, u64>::from(10));
}

#[test]
fn subtraction_of_same_unit() {
    let y = Amount::<Oranges, u64>::from(5);
    assert!(y - y == Amount::<Oranges, u64>::from(0));
    assert!((NumApples::from(3) + NumApples::from(5)) - NumApples::from(5) == NumApples::from(3));
}

#[test]
fn scaling_and_division() {
    let x = NumApples::from(3);
    assert!(x * 3 == NumApples::from(9));
    assert_eq!(x / x, 1);
    assert_eq!((x * 3) / x, 3);
    assert_eq!(NumApples::from(9) / NumApples::from(3), 3);
}

#[test]
fn in_place_arithmetic() {
    let mut x = NumApples::from(3);
    x.add_assign(NumApples::from(5));
    assert_eq!(x.get(), 8);
    x.sub_assign(NumApples::from(2));
    assert_eq!(x.get(), 6);
    x.mul_assign(7);
    assert_eq!(x.get(), 42);
}

#[test]
fn comparison_delegates_to_repr() {
    assert!(NumApples::from(3) < NumApples::from(5));
    assert!(!(NumApples::from(3) > NumApples::from(5)));
    assert!(NumApples::from(3) != NumApples::from(5));
    assert!(NumApples::from(5) == NumApples::from(5));
    assert!(!(NumApples::from(5) != NumApples::from(5)));
    for a in [0u64, 1, 7, u64::MAX] {
        for b in [0u64, 1, 7, u64::MAX] {
            assert_eq!(NumApples::from(a) == NumApples::from(b), a == b);
            assert_eq!(
                NumApples::from(a).partial_cmp(&NumApples::from(b)),
                a.partial_cmp(&b)
            );
        }
    }
}

#[test]
fn default_is_reprs_default() {
    assert_eq!(NumApples::default().get(), u64::default());
    assert_eq!(Amount::<Meters, i32>::default().get(), 0);
    assert_eq!(AmountNoCopy::<Apples, u64>::default().get(), 0);
}

#[test]
fn clone_keeps_the_value() {
    let x = AmountNoCopyNoDefault::<Apples, u64>::from(7);
    let y = x.clone();
    assert!(y == x);
    assert_eq!(y.get(), 7);
}

#[test]
fn copyable_flavors_are_copied() {
    let x = NumApples::from(4);
    let y = x;
    assert!(x == y);
    let z = AmountNoDefault::<Apples, u64>::from(4);
    let w = z;
    assert!(z == w);
}

#[test]
fn wrapper_adds_no_size() {
    assert_eq!(
        core::mem::size_of::<Amount<Apples, u64>>(),
        core::mem::size_of::<u64>()
    );
    assert_eq!(
        core::mem::size_of::<AmountNoCopy<Apples, u64>>(),
        core::mem::size_of::<u64>()
    );
    assert_eq!(
        core::mem::size_of::<AmountNoDefault<Meters, u8>>(),
        core::mem::size_of::<u8>()
    );
    assert_eq!(
        core::mem::size_of::<AmountNoCopyNoDefault<Meters, u128>>(),
        core::mem::size_of::<u128>()
    );
    let ms = Amount::<Meters, u64>::from(10);
    assert_eq!(core::mem::size_of_val(&ms), core::mem::size_of::<u64>());
}

#[derive(Debug, Default, PartialEq)]
struct Seconds;

#[test]
fn unit_marker_is_available_when_default() {
    let duration = Amount::<Seconds, u64>::from(5);
    assert_eq!(duration.unit(), Seconds);
}
