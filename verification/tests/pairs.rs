use orcrist::{
    ArrayElementLocator, Be, ByteReadFailure, ByteSource, FromFixedBytes, Le, Locator, PairField,
    PrimitiveField, ReadError,
};

fn source(bytes: &[u8]) -> ByteSource {
    ByteSource::new(bytes.to_vec())
}

#[test]
fn pair_reads_first_then_second() {
    let mut s = source(&[0x05, 0x1b, 0x00, 0xff]);
    assert_eq!(
        <(u8, Le<u16>)>::from_fixed_bytes(&mut s).unwrap(),
        (5u8, Le(27u16))
    );
    assert_eq!(s.position(), 3);
    assert_eq!(s.remaining_len(), 1);
}

#[test]
fn pair_fails_in_first_without_trying_second() {
    // The second field would fit in what is there; the first does not.
    let mut s = source(&[0xaa, 0xbb]);
    let failure = <(Le<u32>, u8)>::from_fixed_bytes(&mut s).unwrap_err();
    assert_eq!(
        failure,
        ByteReadFailure {
            inner: ReadError { needed: 4, available: 2 },
            declaring_type: "tuple",
            field: PairField::Position0(PrimitiveField),
        }
    );
    assert_eq!(s.position(), 0);
    assert_eq!(s.remaining_len(), 2);
}

#[test]
fn pair_fails_in_second_after_reading_first() {
    let mut s = source(&[1, 2, 3, 4, 5]);
    let failure = <(Be<u32>, Be<u16>)>::from_fixed_bytes(&mut s).unwrap_err();
    assert_eq!(
        failure,
        ByteReadFailure {
            inner: ReadError { needed: 2, available: 1 },
            declaring_type: "tuple",
            field: PairField::Position1(PrimitiveField),
        }
    );
    assert_eq!(s.position(), 4);
}

#[test]
fn pair_failure_message() {
    let failure = <(u8, Be<u16>)>::from_fixed_bytes(&mut source(&[1, 2])).unwrap_err();
    assert_eq!(
        failure.field.render(),
        "primitive value of position 1 field"
    );
    assert_eq!(
        failure.message(),
        "unable to read primitive value of position 1 field of tuple: \
         needed 2 bytes but only 1 remained"
    );
    let failure = <(u8, Be<u16>)>::from_fixed_bytes(&mut source(&[])).unwrap_err();
    assert_eq!(
        failure.message(),
        "unable to read primitive value of position 0 field of tuple: \
         needed 1 bytes but only 0 remained"
    );
}

#[test]
fn nested_pairs_and_arrays() {
    let mut s = source(&[1, 2, 3, 4, 5, 6, 7]);
    assert_eq!(
        <((u8, Be<u16>), [Le<u16>; 2])>::from_fixed_bytes(&mut s).unwrap(),
        ((1u8, Be(0x0203u16)), [Le(0x0504u16), Le(0x0706u16)])
    );
    assert_eq!(s.position(), 7);

    let mut s = source(&[1, 2, 3, 4, 5, 6]);
    let failure = <((u8, Be<u16>), [Le<u16>; 2])>::from_fixed_bytes(&mut s).unwrap_err();
    assert_eq!(failure.declaring_type, "tuple");
    assert_eq!(
        failure.field,
        PairField::Position1(ArrayElementLocator { index: 1, inner: PrimitiveField })
    );
    assert_eq!(failure.inner, ReadError { needed: 2, available: 1 });
    assert_eq!(s.position(), 5);
    assert_eq!(
        failure.message(),
        "unable to read element at index 1 of position 1 field of tuple: \
         needed 2 bytes but only 1 remained"
    );

    let mut s = source(&[1, 2]);
    let failure = <((u8, Be<u16>), [Le<u16>; 2])>::from_fixed_bytes(&mut s).unwrap_err();
    assert_eq!(
        failure.field,
        PairField::Position0(PairField::Position1(PrimitiveField))
    );
    assert_eq!(s.position(), 1);
    assert_eq!(
        failure.message(),
        "unable to read primitive value of position 1 field of position 0 field of tuple: \
         needed 2 bytes but only 1 remained"
    );
}
