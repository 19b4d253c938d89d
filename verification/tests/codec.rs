use phantom_newtype::{Amount, Id, Instant};

enum Meters {}
enum User {}
enum Ticks {}

type Distance = Amount<Meters, u64>;

#[test]
fn amount_encoding_roundtrips() {
    for v in [0u64, 1, 1005, u64::MAX] {
        let a = Distance::from(v);
        let bytes = a.to_le_bytes();
        let back = Distance::from_le_bytes(bytes.as_slice()).unwrap();
        assert!(back == a);
        assert_eq!(back.get(), v);
    }
}

#[test]
fn amount_encoding_matches_bare_repr() {
    for v in [0u64, 7, 0x0102_0304_0506_0708, u64::MAX] {
        let a = Distance::from(v);
        assert_eq!(a.to_le_bytes().as_slice(), &v.to_le_bytes());
    }
}

#[test]
fn decoding_rejects_wrong_length_only() {
    assert!(Distance::from_le_bytes(&[]).is_none());
    assert!(Distance::from_le_bytes(&[1, 2, 3]).is_none());
    assert!(Distance::from_le_bytes(&[0; 7]).is_none());
    assert!(Distance::from_le_bytes(&[0; 9]).is_none());
    assert!(Distance::from_le_bytes(&[0; 8]).is_some());
    assert_eq!(Distance::from_le_bytes(&[9, 0, 0, 0, 0, 0, 0, 0]).unwrap().get(), 9);
}

#[test]
fn id_and_instant_encoding_roundtrip() {
    let i = Id::<User, u64>::from(33);
    assert!(Id::<User, u64>::from_le_bytes(i.to_le_bytes().as_slice()).unwrap() == i);
    assert_eq!(i.to_le_bytes().as_slice(), &33u64.to_le_bytes());

    let t = Instant::<Ticks, u64>::from(99);
    assert!(Instant::<Ticks, u64>::from_le_bytes(t.to_le_bytes().as_slice()).unwrap() == t);
    assert_eq!(t.to_le_bytes().as_slice(), &99u64.to_le_bytes());
}
