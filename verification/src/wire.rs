//! The wire form of an integer: how many bytes it takes, which number a run of
//! bytes writes under a byte order, and which bytes write a given number.

use crate::source::{ByteSource, ReadError};
use vstd::prelude::*;

verus! {

/// The order in which the bytes of an integer stand on the wire.
#[derive(Clone, Copy, Debug, PartialEq, Eq, Structural)]
pub enum ByteOrder {
    /// Least significant byte first.
    LittleEndian,
    /// Most significant byte first.
    BigEndian,
}

/// The number of bit patterns of `width` bytes: 256 to the power `width`.
pub open spec fn patterns(width: nat) -> nat
    decreases width,
{
    if width == 0 {
        1
    } else {
        256 * patterns((width - 1) as nat)
    }
}

/// The number that `bytes` write in base 256 with the least significant byte first.
pub open spec fn le_value(bytes: Seq<u8>) -> nat
    decreases bytes.len(),
{
    if bytes.len() == 0 {
        0
    } else {
        bytes.first() as nat + 256 * le_value(bytes.drop_first())
    }
}

/// The number that `bytes` write in base 256 with the most significant byte first.
pub open spec fn be_value(bytes: Seq<u8>) -> nat
    decreases bytes.len(),
{
    if bytes.len() == 0 {
        0
    } else {
        256 * be_value(bytes.drop_last()) + bytes.last() as nat
    }
}

/// The number that `bytes` write under `order`.
pub open spec fn value_in(order: ByteOrder, bytes: Seq<u8>) -> nat {
    match order {
        ByteOrder::LittleEndian => le_value(bytes),
        ByteOrder::BigEndian => be_value(bytes),
    }
}

/// The `width` bytes that write `pattern` with the least significant byte first.
pub open spec fn le_bytes(pattern: nat, width: nat) -> Seq<u8>
    decreases width,
{
    if width == 0 {
        Seq::empty()
    } else {
        seq![(pattern % 256) as u8] + le_bytes(pattern / 256, (width - 1) as nat)
    }
}

/// The `width` bytes that write `pattern` with the most significant byte first.
pub open spec fn be_bytes(pattern: nat, width: nat) -> Seq<u8>
    decreases width,
{
    if width == 0 {
        Seq::empty()
    } else {
        be_bytes(pattern / 256, (width - 1) as nat).push((pattern % 256) as u8)
    }
}

/// The `width` bytes that write `pattern` under `order`.
pub open spec fn bytes_in(order: ByteOrder, pattern: nat, width: nat) -> Seq<u8> {
    match order {
        ByteOrder::LittleEndian => le_bytes(pattern, width),
        ByteOrder::BigEndian => be_bytes(pattern, width),
    }
}

/// The integer that the bit pattern `pattern` of `width` bytes stands for in
/// two's complement.
pub open spec fn signed_of(pattern: nat, width: nat) -> int {
    if 2 * pattern < patterns(width) {
        pattern as int
    } else {
        pattern - patterns(width)
    }
}

/// The bit pattern of `width` bytes that stands for `value` in two's complement.
pub open spec fn pattern_of_signed(value: int, width: nat) -> nat {
    if value >= 0 {
        value as nat
    } else {
        (value + patterns(width)) as nat
    }
}

/// The pattern counts of the widths that this library decodes.
pub proof fn lemma_patterns_of_widths()
    ensures
        patterns(0) == 1,
        patterns(1) == 0x100,
        patterns(2) == 0x1_0000,
        patterns(4) == 0x1_0000_0000,
        patterns(8) == 0x1_0000_0000_0000_0000,
        patterns(16) == 0x1_0000_0000_0000_0000_0000_0000_0000_0000,
{
    reveal_with_fuel(patterns, 3);
    assert(patterns(4) == 0x1_0000 * patterns(2));
    assert(patterns(6) == 0x1_0000 * patterns(4));
    assert(patterns(8) == 0x1_0000 * patterns(6));
    assert(patterns(10) == 0x1_0000 * patterns(8));
    assert(patterns(12) == 0x1_0000 * patterns(10));
    assert(patterns(14) == 0x1_0000 * patterns(12));
    assert(patterns(16) == 0x1_0000 * patterns(14));
}

/// A wider pattern has no fewer values.
pub proof fn lemma_patterns_monotone(narrow: nat, wide: nat)
    requires
        narrow <= wide,
    ensures
        1 <= patterns(narrow) <= patterns(wide),
    decreases wide,
{
    if wide == 0 {
    } else if narrow == wide {
        lemma_patterns_monotone((narrow - 1) as nat, (wide - 1) as nat);
    } else {
        lemma_patterns_monotone(narrow, (wide - 1) as nat);
    }
}

/// The bytes that write a pattern are as many as asked for, in either order.
pub proof fn lemma_bytes_len(order: ByteOrder, pattern: nat, width: nat)
    ensures
        bytes_in(order, pattern, width).len() == width,
    decreases width,
{
    if width > 0 {
        lemma_bytes_len(order, pattern / 256, (width - 1) as nat);
    }
}

/// Writing a pattern that fits the width and reading the bytes back, under one
/// order, gives the pattern.
pub proof fn lemma_value_of_bytes(order: ByteOrder, pattern: nat, width: nat)
    requires
        pattern < patterns(width),
    ensures
        value_in(order, bytes_in(order, pattern, width)) == pattern,
    decreases width,
{
    if width > 0 {
        let rest = (width - 1) as nat;
        lemma_value_of_bytes(order, pattern / 256, rest);
        lemma_bytes_len(order, pattern / 256, rest);
        match order {
            ByteOrder::LittleEndian => {
                let bytes = le_bytes(pattern, width);
                assert(bytes.drop_first() =~= le_bytes(pattern / 256, rest));
            },
            ByteOrder::BigEndian => {
                let bytes = be_bytes(pattern, width);
                assert(bytes.drop_last() =~= be_bytes(pattern / 256, rest));
            },
        }
    }
}

/// Computes the number that `bytes` write under `order`.
pub fn unsigned_value(bytes: &[u8], order: ByteOrder) -> (value: u128)
    requires
        bytes@.len() <= 16,
    ensures
        value == value_in(order, bytes@),
        value < patterns(bytes@.len()),
{
    let n: usize = bytes.len();
    let mut acc: u128 = 0;
    let mut done: usize = 0;
    proof {
        lemma_patterns_of_widths();
    }
    while done < n
        invariant
            n == bytes@.len(),
            n <= 16,
            done <= n,
            patterns(16) == 0x1_0000_0000_0000_0000_0000_0000_0000_0000,
            acc < patterns(done as nat),
            order == ByteOrder::BigEndian ==> acc == be_value(bytes@.take(done as int)),
            order == ByteOrder::LittleEndian ==> acc == le_value(bytes@.skip(n - done)),
        decreases n - done,
    {
        let byte: u8 = match order {
            ByteOrder::BigEndian => bytes[done],
            ByteOrder::LittleEndian => bytes[n - done - 1],
        };
        proof {
            lemma_patterns_monotone((done + 1) as nat, 16);
            assert(bytes@.take(done + 1).drop_last() =~= bytes@.take(done as int));
            assert(bytes@.skip(n - done - 1).drop_first() =~= bytes@.skip(n - done));
        }
        acc = acc * 256 + byte as u128;
        done = done + 1;
    }
    assert(bytes@.take(n as int) =~= bytes@);
    assert(bytes@.skip(0) =~= bytes@);
    acc
}

/// Reads the `N` bytes of an integer and computes the number that they write
/// under `order`. A refused read is handed on as it is.
pub fn read_pattern<const N: usize>(stream: &mut ByteSource, order: ByteOrder) -> (r: Result<
    u128,
    ReadError,
>)
    requires
        N <= 16,
    ensures
        final(stream).bytes() == old(stream).bytes(),
        final(stream).consumed() <= final(stream).bytes().len(),
        match r {
            Ok(pattern) => {
                &&& old(stream).available() >= N
                &&& pattern == value_in(order, old(stream).upcoming(N as nat))
                &&& pattern < patterns(N as nat)
                &&& final(stream).consumed() == old(stream).consumed() + N
                &&& final(stream).outcomes() == old(stream).outcomes().push(true)
            },
            Err(error) => {
                &&& old(stream).available() < N
                &&& error == ReadError { needed: N, available: old(stream).available() as usize }
                &&& final(stream).consumed() == old(stream).consumed()
                &&& final(stream).outcomes() == old(stream).outcomes().push(false)
            },
        },
{
    match stream.read_exact::<N>() {
        Ok(buf) => Ok(unsigned_value(buf.as_slice(), order)),
        Err(error) => Err(error),
    }
}

} // verus!
