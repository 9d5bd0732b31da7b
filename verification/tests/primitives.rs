use orcrist::primitive::order_of_probe;
use orcrist::{
    Be, ByteOrder, ByteReadFailure, ByteSource, FromFixedBytes, Le, Ne, PrimitiveField, ReadError,
};

fn source(bytes: &[u8]) -> ByteSource {
    ByteSource::new(bytes.to_vec())
}

fn le<T: FromFixedBytes>(bytes: &[u8]) -> T
where
    T::FieldEnum: std::fmt::Debug,
{
    T::from_fixed_bytes(&mut source(bytes)).unwrap()
}

#[test]
fn bare_byte_is_its_own_wire_form() {
    assert_eq!(u8::from_fixed_bytes(&mut source(&[0x7f])).unwrap(), 0x7f);
    assert_eq!(u8::from_fixed_bytes(&mut source(&[0xff, 0x01])).unwrap(), 0xff);
}

#[test]
fn little_endian_reads_least_significant_byte_first() {
    assert_eq!(le::<Le<u8>>(&[0x12]), Le(0x12u8));
    assert_eq!(le::<Le<u16>>(&[0x34, 0x12]), Le(0x1234u16));
    assert_eq!(le::<Le<u32>>(&[0x78, 0x56, 0x34, 0x12]), Le(0x1234_5678u32));
    assert_eq!(
        le::<Le<u64>>(&[0xef, 0xcd, 0xab, 0x89, 0x67, 0x45, 0x23, 0x01]),
        Le(0x0123_4567_89ab_cdefu64)
    );
    assert_eq!(
        le::<Le<u128>>(&[16, 15, 14, 13, 12, 11, 10, 9, 8, 7, 6, 5, 4, 3, 2, 1]),
        Le(0x0102_0304_0506_0708_090a_0b0c_0d0e_0f10u128)
    );
}

#[test]
fn big_endian_reads_most_significant_byte_first() {
    assert_eq!(le::<Be<u8>>(&[0x12]), Be(0x12u8));
    assert_eq!(le::<Be<u16>>(&[0x12, 0x34]), Be(0x1234u16));
    assert_eq!(le::<Be<u32>>(&[0x12, 0x34, 0x56, 0x78]), Be(0x1234_5678u32));
    assert_eq!(
        le::<Be<u64>>(&[0x01, 0x23, 0x45, 0x67, 0x89, 0xab, 0xcd, 0xef]),
        Be(0x0123_4567_89ab_cdefu64)
    );
    assert_eq!(
        le::<Be<u128>>(&[1, 2, 3, 4, 5, 6, 7, 8, 9, 10, 11, 12, 13, 14, 15, 16]),
        Be(0x0102_0304_0506_0708_090a_0b0c_0d0e_0f10u128)
    );
}

#[test]
fn signed_values_are_twos_complement() {
    assert_eq!(le::<Le<i8>>(&[0xff]), Le(-1i8));
    assert_eq!(le::<Le<i8>>(&[0x80]), Le(i8::MIN));
    assert_eq!(le::<Le<i8>>(&[0x7f]), Le(i8::MAX));
    assert_eq!(le::<Le<i16>>(&[0xfe, 0xff]), Le(-2i16));
    assert_eq!(le::<Be<i16>>(&[0x80, 0x00]), Be(i16::MIN));
    assert_eq!(le::<Be<i32>>(&[0xff, 0xff, 0xff, 0x85]), Be(-123i32));
    assert_eq!(le::<Le<i64>>(&[0, 0, 0, 0, 0, 0, 0, 0x80]), Le(i64::MIN));
    assert_eq!(le::<Be<i128>>(&[0xff; 16]), Be(-1i128));
    assert_eq!(
        le::<Le<i128>>(&[0, 0, 0, 0, 0, 0, 0, 0, 0, 0, 0, 0, 0, 0, 0, 0x80]),
        Le(i128::MIN)
    );
    assert_eq!(
        le::<Be<i128>>(&[0x7f, 255, 255, 255, 255, 255, 255, 255, 255, 255, 255, 255, 255, 255, 255, 255]),
        Be(i128::MAX)
    );
}

#[test]
fn round_trip_unsigned() {
    for v in [0u8, 1, 0x7f, 0x80, 0xff] {
        assert_eq!(le::<Le<u8>>(&v.to_le_bytes()), Le(v));
        assert_eq!(le::<Be<u8>>(&v.to_be_bytes()), Be(v));
        assert_eq!(le::<Ne<u8>>(&v.to_ne_bytes()), Ne(v));
    }
    for v in [0u16, 1, 0x00ff, 0x0100, 0x1234, 0x8000, u16::MAX] {
        assert_eq!(le::<Le<u16>>(&v.to_le_bytes()), Le(v));
        assert_eq!(le::<Be<u16>>(&v.to_be_bytes()), Be(v));
        assert_eq!(le::<Ne<u16>>(&v.to_ne_bytes()), Ne(v));
    }
    for v in [0u32, 1, 0x1234_5678, 0x8000_0000, u32::MAX] {
        assert_eq!(le::<Le<u32>>(&v.to_le_bytes()), Le(v));
        assert_eq!(le::<Be<u32>>(&v.to_be_bytes()), Be(v));
        assert_eq!(le::<Ne<u32>>(&v.to_ne_bytes()), Ne(v));
    }
    for v in [0u64, 1, 0x0123_4567_89ab_cdef, 1 << 63, u64::MAX] {
        assert_eq!(le::<Le<u64>>(&v.to_le_bytes()), Le(v));
        assert_eq!(le::<Be<u64>>(&v.to_be_bytes()), Be(v));
        assert_eq!(le::<Ne<u64>>(&v.to_ne_bytes()), Ne(v));
    }
    for v in [0u128, 1, 0x0102_0304_0506_0708_090a_0b0c_0d0e_0f10, 1 << 127, u128::MAX] {
        assert_eq!(le::<Le<u128>>(&v.to_le_bytes()), Le(v));
        assert_eq!(le::<Be<u128>>(&v.to_be_bytes()), Be(v));
        assert_eq!(le::<Ne<u128>>(&v.to_ne_bytes()), Ne(v));
    }
}

#[test]
fn round_trip_signed() {
    for v in [0i8, 1, -1, i8::MIN, i8::MAX] {
        assert_eq!(le::<Le<i8>>(&v.to_le_bytes()), Le(v));
        assert_eq!(le::<Be<i8>>(&v.to_be_bytes()), Be(v));
        assert_eq!(le::<Ne<i8>>(&v.to_ne_bytes()), Ne(v));
    }
    for v in [0i16, 1, -1, -256, 0x1234, i16::MIN, i16::MAX] {
        assert_eq!(le::<Le<i16>>(&v.to_le_bytes()), Le(v));
        assert_eq!(le::<Be<i16>>(&v.to_be_bytes()), Be(v));
        assert_eq!(le::<Ne<i16>>(&v.to_ne_bytes()), Ne(v));
    }
    for v in [0i32, 1, -1, -123_456, 0x1234_5678, i32::MIN, i32::MAX] {
        assert_eq!(le::<Le<i32>>(&v.to_le_bytes()), Le(v));
        assert_eq!(le::<Be<i32>>(&v.to_be_bytes()), Be(v));
        assert_eq!(le::<Ne<i32>>(&v.to_ne_bytes()), Ne(v));
    }
    for v in [0i64, 1, -1, -0x0123_4567_89ab, i64::MIN, i64::MAX] {
        assert_eq!(le::<Le<i64>>(&v.to_le_bytes()), Le(v));
        assert_eq!(le::<Be<i64>>(&v.to_be_bytes()), Be(v));
        assert_eq!(le::<Ne<i64>>(&v.to_ne_bytes()), Ne(v));
    }
    for v in [0i128, 1, -1, -0x0102_0304_0506_0708_090a, i128::MIN, i128::MAX] {
        assert_eq!(le::<Le<i128>>(&v.to_le_bytes()), Le(v));
        assert_eq!(le::<Be<i128>>(&v.to_be_bytes()), Be(v));
        assert_eq!(le::<Ne<i128>>(&v.to_ne_bytes()), Ne(v));
    }
}

#[test]
fn native_endian_reads_as_the_machine_does() {
    assert_eq!(le::<Ne<u16>>(&[0x12, 0x34]), Ne(u16::from_ne_bytes([0x12, 0x34])));
    assert_eq!(
        le::<Ne<u32>>(&[0x12, 0x34, 0x56, 0x78]),
        Ne(u32::from_ne_bytes([0x12, 0x34, 0x56, 0x78]))
    );
    assert_eq!(
        le::<Ne<i64>>(&[1, 2, 3, 4, 5, 6, 7, 0x88]),
        Ne(i64::from_ne_bytes([1, 2, 3, 4, 5, 6, 7, 0x88]))
    );
}

#[test]
fn success_consumes_exactly_the_width() {
    let mut s = source(&[1, 2, 3, 4, 5, 6, 7, 8, 9, 10, 11, 12, 13, 14, 15, 16, 17, 18, 19, 20]);
    assert_eq!(s.position(), 0);
    assert_eq!(s.remaining_len(), 20);
    u8::from_fixed_bytes(&mut s).unwrap();
    assert_eq!(s.position(), 1);
    Le::<u16>::from_fixed_bytes(&mut s).unwrap();
    assert_eq!(s.position(), 3);
    Be::<i32>::from_fixed_bytes(&mut s).unwrap();
    assert_eq!(s.position(), 7);
    Ne::<u64>::from_fixed_bytes(&mut s).unwrap();
    assert_eq!(s.position(), 15);
    assert_eq!(s.remaining_len(), 5);
    assert!(Le::<u128>::from_fixed_bytes(&mut s).is_err());
    assert_eq!(s.position(), 15);
    assert_eq!(Be::<u8>::from_fixed_bytes(&mut s).unwrap(), Be(16));
    assert_eq!(s.position(), 16);
}

#[test]
fn consecutive_values_come_from_consecutive_bytes() {
    let mut s = source(&[0x01, 0x00, 0x00, 0x02, 0xff]);
    assert_eq!(Le::<u16>::from_fixed_bytes(&mut s).unwrap(), Le(1));
    assert_eq!(Be::<u16>::from_fixed_bytes(&mut s).unwrap(), Be(2));
    assert_eq!(Le::<i8>::from_fixed_bytes(&mut s).unwrap(), Le(-1));
    assert_eq!(s.remaining_len(), 0);
}

#[test]
fn short_read_of_every_width() {
    fn expect_short<T: FromFixedBytes<FieldEnum = PrimitiveField> + std::fmt::Debug>(
        width: usize,
        name: &'static str,
    ) {
        for available in 0..width {
            let mut s = source(&vec![0xaa; available]);
            let failure = T::from_fixed_bytes(&mut s).unwrap_err();
            assert_eq!(
                failure,
                ByteReadFailure {
                    inner: ReadError { needed: width, available },
                    declaring_type: name,
                    field: PrimitiveField,
                }
            );
            assert_eq!(s.position(), 0);
            assert_eq!(s.remaining_len(), available);
        }
        let mut s = source(&vec![0xaa; width]);
        assert!(T::from_fixed_bytes(&mut s).is_ok());
        assert_eq!(s.position(), width);
    }
    expect_short::<u8>(1, "u8");
    expect_short::<Le<i8>>(1, "Le<i8>");
    expect_short::<Le<i16>>(2, "Le<i16>");
    expect_short::<Le<i32>>(4, "Le<i32>");
    expect_short::<Le<i64>>(8, "Le<i64>");
    expect_short::<Le<i128>>(16, "Le<i128>");
    expect_short::<Le<u8>>(1, "Le<u8>");
    expect_short::<Le<u16>>(2, "Le<u16>");
    expect_short::<Le<u32>>(4, "Le<u32>");
    expect_short::<Le<u64>>(8, "Le<u64>");
    expect_short::<Le<u128>>(16, "Le<u128>");
    expect_short::<Be<i8>>(1, "Be<i8>");
    expect_short::<Be<i16>>(2, "Be<i16>");
    expect_short::<Be<i32>>(4, "Be<i32>");
    expect_short::<Be<i64>>(8, "Be<i64>");
    expect_short::<Be<i128>>(16, "Be<i128>");
    expect_short::<Be<u8>>(1, "Be<u8>");
    expect_short::<Be<u16>>(2, "Be<u16>");
    expect_short::<Be<u32>>(4, "Be<u32>");
    expect_short::<Be<u64>>(8, "Be<u64>");
    expect_short::<Be<u128>>(16, "Be<u128>");
    expect_short::<Ne<i8>>(1, "Ne<i8>");
    expect_short::<Ne<i16>>(2, "Ne<i16>");
    expect_short::<Ne<i32>>(4, "Ne<i32>");
    expect_short::<Ne<i64>>(8, "Ne<i64>");
    expect_short::<Ne<i128>>(16, "Ne<i128>");
    expect_short::<Ne<u8>>(1, "Ne<u8>");
    expect_short::<Ne<u16>>(2, "Ne<u16>");
    expect_short::<Ne<u32>>(4, "Ne<u32>");
    expect_short::<Ne<u64>>(8, "Ne<u64>");
    expect_short::<Ne<u128>>(16, "Ne<u128>");
}

#[test]
fn a_refused_read_can_be_followed_by_a_smaller_one() {
    let mut s = source(&[0x2a]);
    assert!(Le::<u16>::from_fixed_bytes(&mut s).is_err());
    assert_eq!(u8::from_fixed_bytes(&mut s).unwrap(), 0x2a);
    assert!(u8::from_fixed_bytes(&mut s).is_err());
}

#[test]
fn read_exact_hands_out_the_bytes_at_the_cursor() {
    let mut s = source(&[1, 2, 3, 4, 5]);
    assert_eq!(s.read_exact::<2>(), Ok([1, 2]));
    assert_eq!(s.read_exact::<0>(), Ok([]));
    assert_eq!(s.read_exact::<4>(), Err(ReadError { needed: 4, available: 3 }));
    assert_eq!(s.read_exact::<3>(), Ok([3, 4, 5]));
    assert_eq!(s.read_exact::<1>(), Err(ReadError { needed: 1, available: 0 }));
    assert_eq!(s.position(), 5);
}

#[test]
fn wrappers_compare_as_their_values() {
    assert!(Le(1u32) < Le(2u32));
    assert!(Be(-5i16) < Be(3i16));
    assert!(Ne(7u8) > Ne(6u8));
    assert_eq!(Le(3u64), Le(3u64));
    assert_ne!(Be(3u64), Be(4u64));
    assert_eq!(Le(9u16).max(Le(4u16)), Le(9u16));
    assert_eq!(Le::<u32>::default(), Le(0u32));
    assert_eq!(Be::<i8>::default(), Be(0i8));
    assert_eq!(Ne::<u128>::default(), Ne(0u128));
}

#[test]
fn wrappers_come_from_their_values() {
    let little: Le<u32> = 16u32.into();
    let big: Be<i16> = (-2i16).into();
    let native: Ne<u8> = Ne::from(5u8);
    assert_eq!(little, Le(16));
    assert_eq!(big.0, -2);
    assert_eq!(native.0, 5);
}

#[test]
fn byte_order_is_told_from_the_probe() {
    assert_eq!(order_of_probe(1), ByteOrder::LittleEndian);
    assert_eq!(order_of_probe(256), ByteOrder::BigEndian);
    assert_eq!(order_of_probe(0), ByteOrder::BigEndian);
    let native = order_of_probe(u16::from_ne_bytes([1, 0]));
    if u16::from_ne_bytes([1, 0]) == u16::from_le_bytes([1, 0]) {
        assert_eq!(native, ByteOrder::LittleEndian);
    } else {
        assert_eq!(native, ByteOrder::BigEndian);
    }
}
