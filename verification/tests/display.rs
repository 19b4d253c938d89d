use phantom_newtype::displayer::DisplayerOf;
use phantom_newtype::{Amount, Id};

struct Cents;

type Money = Amount<Cents, u64>;

impl DisplayerOf<Money> for Cents {
    fn display(value: &Money) -> String {
        format!("${}.{:02}", value.get() / 100, value.get() % 100)
    }
}

#[test]
fn cents_render_as_dollars() {
    assert_eq!(Money::from(1005).display().render(), "$10.05");
}

#[test]
fn cents_render_pads_small_fractions() {
    assert_eq!(Money::from(5).display().render(), "$0.05");
    assert_eq!(Money::from(100).display().render(), "$1.00");
}

struct Tag;

type TaggedId = Id<Tag, u64>;

impl DisplayerOf<TaggedId> for Tag {
    fn display(value: &TaggedId) -> String {
        format!("#{}", value.get())
    }
}

#[test]
fn id_custom_rendering() {
    assert_eq!(TaggedId::from(42).display().render(), "#42");
}

enum Ticks {}

#[test]
fn plain_decimal_rendering_matches_repr() {
    for v in [0u64, 7, 9, 10, 99, 100, 1005, u64::MAX] {
        assert_eq!(Money::from(v).to_decimal(), format!("{}", v));
    }
    assert_eq!(TaggedId::from(7).to_decimal(), "7");
    assert_eq!(
        phantom_newtype::Instant::<Ticks, u64>::from(123456789).to_decimal(),
        "123456789"
    );
}
