//! The ten integer types that the endian wrappers hold: for each its width,
//! the value that a bit pattern stands for, and its reader.

use crate::primitive::{wrapper_name, Endian, FixedInt};
use crate::source::{ByteSource, ReadError};
use crate::wire::{
    lemma_patterns_of_widths, pattern_of_signed, patterns, read_pattern, signed_of, ByteOrder,
};
use vstd::prelude::*;

verus! {

impl FixedInt for i8 {
    open spec fn byte_width() -> nat {
        1
    }

    open spec fn from_pattern(pattern: nat) -> i8 {
        signed_of(pattern, 1) as i8
    }

    open spec fn pattern_of(value: i8) -> nat {
        pattern_of_signed(value as int, 1)
    }

    open spec fn int_name() -> Seq<char> {
        "i8"@
    }

    proof fn lemma_pattern_of(value: i8) {
        lemma_patterns_of_widths();
    }

    fn wrapped_name(tag: Endian) -> (name: &'static str) {
        proof {
            reveal_strlit("Le");
            reveal_strlit("Be");
            reveal_strlit("Ne");
            reveal_strlit("<");
            reveal_strlit(">");
            reveal_strlit("i8");
            reveal_strlit("Le<i8>");
            reveal_strlit("Be<i8>");
            reveal_strlit("Ne<i8>");
        }
        let name = match tag {
            Endian::Little => "Le<i8>",
            Endian::Big => "Be<i8>",
            Endian::Native => "Ne<i8>",
        };
        assert(name@ =~= wrapper_name(tag, Self::int_name()));
        name
    }

    fn read(stream: &mut ByteSource, order: ByteOrder) -> (r: Result<i8, ReadError>) {
        match read_pattern::<1>(stream, order) {
            Ok(pattern) => {
                proof {
                    lemma_patterns_of_widths();
                }
                if pattern < 0x80 {
                    Ok(pattern as i8)
                } else {
                    let low: i8 = (pattern - 0x80) as i8;
                    Ok(low + i8::MIN)
                }
            },
            Err(error) => Err(error),
        }
    }
}

impl FixedInt for i16 {
    open spec fn byte_width() -> nat {
        2
    }

    open spec fn from_pattern(pattern: nat) -> i16 {
        signed_of(pattern, 2) as i16
    }

    open spec fn pattern_of(value: i16) -> nat {
        pattern_of_signed(value as int, 2)
    }

    open spec fn int_name() -> Seq<char> {
        "i16"@
    }

    proof fn lemma_pattern_of(value: i16) {
        lemma_patterns_of_widths();
    }

    fn wrapped_name(tag: Endian) -> (name: &'static str) {
        proof {
            reveal_strlit("Le");
            reveal_strlit("Be");
            reveal_strlit("Ne");
            reveal_strlit("<");
            reveal_strlit(">");
            reveal_strlit("i16");
            reveal_strlit("Le<i16>");
            reveal_strlit("Be<i16>");
            reveal_strlit("Ne<i16>");
        }
        let name = match tag {
            Endian::Little => "Le<i16>",
            Endian::Big => "Be<i16>",
            Endian::Native => "Ne<i16>",
        };
        assert(name@ =~= wrapper_name(tag, Self::int_name()));
        name
    }

    fn read(stream: &mut ByteSource, order: ByteOrder) -> (r: Result<i16, ReadError>) {
        match read_pattern::<2>(stream, order) {
            Ok(pattern) => {
                proof {
                    lemma_patterns_of_widths();
                }
                if pattern < 0x8000 {
                    Ok(pattern as i16)
                } else {
                    let low: i16 = (pattern - 0x8000) as i16;
                    Ok(low + i16::MIN)
                }
            },
            Err(error) => Err(error),
        }
    }
}

impl FixedInt for i32 {
    open spec fn byte_width() -> nat {
        4
    }

    open spec fn from_pattern(pattern: nat) -> i32 {
        signed_of(pattern, 4) as i32
    }

    open spec fn pattern_of(value: i32) -> nat {
        pattern_of_signed(value as int, 4)
    }

    open spec fn int_name() -> Seq<char> {
        "i32"@
    }

    proof fn lemma_pattern_of(value: i32) {
        lemma_patterns_of_widths();
    }

    fn wrapped_name(tag: Endian) -> (name: &'static str) {
        proof {
            reveal_strlit("Le");
            reveal_strlit("Be");
            reveal_strlit("Ne");
            reveal_strlit("<");
            reveal_strlit(">");
            reveal_strlit("i32");
            reveal_strlit("Le<i32>");
            reveal_strlit("Be<i32>");
            reveal_strlit("Ne<i32>");
        }
        let name = match tag {
            Endian::Little => "Le<i32>",
            Endian::Big => "Be<i32>",
            Endian::Native => "Ne<i32>",
        };
        assert(name@ =~= wrapper_name(tag, Self::int_name()));
        name
    }

    fn read(stream: &mut ByteSource, order: ByteOrder) -> (r: Result<i32, ReadError>) {
        match read_pattern::<4>(stream, order) {
            Ok(pattern) => {
                proof {
                    lemma_patterns_of_widths();
                }
                if pattern < 0x8000_0000 {
                    Ok(pattern as i32)
                } else {
                    let low: i32 = (pattern - 0x8000_0000) as i32;
                    Ok(low + i32::MIN)
                }
            },
            Err(error) => Err(error),
        }
    }
}

impl FixedInt for i64 {
    open spec fn byte_width() -> nat {
        8
    }

    open spec fn from_pattern(pattern: nat) -> i64 {
        signed_of(pattern, 8) as i64
    }

    open spec fn pattern_of(value: i64) -> nat {
        pattern_of_signed(value as int, 8)
    }

    open spec fn int_name() -> Seq<char> {
        "i64"@
    }

    proof fn lemma_pattern_of(value: i64) {
        lemma_patterns_of_widths();
    }

    fn wrapped_name(tag: Endian) -> (name: &'static str) {
        proof {
            reveal_strlit("Le");
            reveal_strlit("Be");
            reveal_strlit("Ne");
            reveal_strlit("<");
            reveal_strlit(">");
            reveal_strlit("i64");
            reveal_strlit("Le<i64>");
            reveal_strlit("Be<i64>");
            reveal_strlit("Ne<i64>");
        }
        let name = match tag {
            Endian::Little => "Le<i64>",
            Endian::Big => "Be<i64>",
            Endian::Native => "Ne<i64>",
        };
        assert(name@ =~= wrapper_name(tag, Self::int_name()));
        name
    }

    fn read(stream: &mut ByteSource, order: ByteOrder) -> (r: Result<i64, ReadError>) {
        match read_pattern::<8>(stream, order) {
            Ok(pattern) => {
                proof {
                    lemma_patterns_of_widths();
                }
                if pattern < 0x8000_0000_0000_0000 {
                    Ok(pattern as i64)
                } else {
                    let low: i64 = (pattern - 0x8000_0000_0000_0000) as i64;
                    Ok(low + i64::MIN)
                }
            },
            Err(error) => Err(error),
        }
    }
}

impl FixedInt for i128 {
    open spec fn byte_width() -> nat {
        16
    }

    open spec fn from_pattern(pattern: nat) -> i128 {
        signed_of(pattern, 16) as i128
    }

    open spec fn pattern_of(value: i128) -> nat {
        pattern_of_signed(value as int, 16)
    }

    open spec fn int_name() -> Seq<char> {
        "i128"@
    }

    proof fn lemma_pattern_of(value: i128) {
        lemma_patterns_of_widths();
    }

    fn wrapped_name(tag: Endian) -> (name: &'static str) {
        proof {
            reveal_strlit("Le");
            reveal_strlit("Be");
            reveal_strlit("Ne");
            reveal_strlit("<");
            reveal_strlit(">");
            reveal_strlit("i128");
            reveal_strlit("Le<i128>");
            reveal_strlit("Be<i128>");
            reveal_strlit("Ne<i128>");
        }
        let name = match tag {
            Endian::Little => "Le<i128>",
            Endian::Big => "Be<i128>",
            Endian::Native => "Ne<i128>",
        };
        assert(name@ =~= wrapper_name(tag, Self::int_name()));
        name
    }

    fn read(stream: &mut ByteSource, order: ByteOrder) -> (r: Result<i128, ReadError>) {
        match read_pattern::<16>(stream, order) {
            Ok(pattern) => {
                proof {
                    lemma_patterns_of_widths();
                }
                if pattern < 0x8000_0000_0000_0000_0000_0000_0000_0000 {
                    Ok(pattern as i128)
                } else {
                    let low: i128 = (pattern - 0x8000_0000_0000_0000_0000_0000_0000_0000) as i128;
                    Ok(low + i128::MIN)
                }
            },
            Err(error) => Err(error),
        }
    }
}

impl FixedInt for u8 {
    open spec fn byte_width() -> nat {
        1
    }

    open spec fn from_pattern(pattern: nat) -> u8 {
        pattern as u8
    }

    open spec fn pattern_of(value: u8) -> nat {
        value as nat
    }

    open spec fn int_name() -> Seq<char> {
        "u8"@
    }

    proof fn lemma_pattern_of(value: u8) {
        lemma_patterns_of_widths();
    }

    fn wrapped_name(tag: Endian) -> (name: &'static str) {
        proof {
            reveal_strlit("Le");
            reveal_strlit("Be");
            reveal_strlit("Ne");
            reveal_strlit("<");
            reveal_strlit(">");
            reveal_strlit("u8");
            reveal_strlit("Le<u8>");
            reveal_strlit("Be<u8>");
            reveal_strlit("Ne<u8>");
        }
        let name = match tag {
            Endian::Little => "Le<u8>",
            Endian::Big => "Be<u8>",
            Endian::Native => "Ne<u8>",
        };
        assert(name@ =~= wrapper_name(tag, Self::int_name()));
        name
    }

    fn read(stream: &mut ByteSource, order: ByteOrder) -> (r: Result<u8, ReadError>) {
        match read_pattern::<1>(stream, order) {
            Ok(pattern) => {
                proof {
                    lemma_patterns_of_widths();
                }
                Ok(pattern as u8)
            },
            Err(error) => Err(error),
        }
    }
}

impl FixedInt for u16 {
    open spec fn byte_width() -> nat {
        2
    }

    open spec fn from_pattern(pattern: nat) -> u16 {
        pattern as u16
    }

    open spec fn pattern_of(value: u16) -> nat {
        value as nat
    }

    open spec fn int_name() -> Seq<char> {
        "u16"@
    }

    proof fn lemma_pattern_of(value: u16) {
        lemma_patterns_of_widths();
    }

    fn wrapped_name(tag: Endian) -> (name: &'static str) {
        proof {
            reveal_strlit("Le");
            reveal_strlit("Be");
            reveal_strlit("Ne");
            reveal_strlit("<");
            reveal_strlit(">");
            reveal_strlit("u16");
            reveal_strlit("Le<u16>");
            reveal_strlit("Be<u16>");
            reveal_strlit("Ne<u16>");
        }
        let name = match tag {
            Endian::Little => "Le<u16>",
            Endian::Big => "Be<u16>",
            Endian::Native => "Ne<u16>",
        };
        assert(name@ =~= wrapper_name(tag, Self::int_name()));
        name
    }

    fn read(stream: &mut ByteSource, order: ByteOrder) -> (r: Result<u16, ReadError>) {
        match read_pattern::<2>(stream, order) {
            Ok(pattern) => {
                proof {
                    lemma_patterns_of_widths();
                }
                Ok(pattern as u16)
            },
            Err(error) => Err(error),
        }
    }
}

impl FixedInt for u32 {
    open spec fn byte_width() -> nat {
        4
    }

    open spec fn from_pattern(pattern: nat) -> u32 {
        pattern as u32
    }

    open spec fn pattern_of(value: u32) -> nat {
        value as nat
    }

    open spec fn int_name() -> Seq<char> {
        "u32"@
    }

    proof fn lemma_pattern_of(value: u32) {
        lemma_patterns_of_widths();
    }

    fn wrapped_name(tag: Endian) -> (name: &'static str) {
        proof {
            reveal_strlit("Le");
            reveal_strlit("Be");
            reveal_strlit("Ne");
            reveal_strlit("<");
            reveal_strlit(">");
            reveal_strlit("u32");
            reveal_strlit("Le<u32>");
            reveal_strlit("Be<u32>");
            reveal_strlit("Ne<u32>");
        }
        let name = match tag {
            Endian::Little => "Le<u32>",
            Endian::Big => "Be<u32>",
            Endian::Native => "Ne<u32>",
        };
        assert(name@ =~= wrapper_name(tag, Self::int_name()));
        name
    }

    fn read(stream: &mut ByteSource, order: ByteOrder) -> (r: Result<u32, ReadError>) {
        match read_pattern::<4>(stream, order) {
            Ok(pattern) => {
                proof {
                    lemma_patterns_of_widths();
                }
                Ok(pattern as u32)
            },
            Err(error) => Err(error),
        }
    }
}

impl FixedInt for u64 {
    open spec fn byte_width() -> nat {
        8
    }

    open spec fn from_pattern(pattern: nat) -> u64 {
        pattern as u64
    }

    open spec fn pattern_of(value: u64) -> nat {
        value as nat
    }

    open spec fn int_name() -> Seq<char> {
        "u64"@
    }

    proof fn lemma_pattern_of(value: u64) {
        lemma_patterns_of_widths();
    }

    fn wrapped_name(tag: Endian) -> (name: &'static str) {
        proof {
            reveal_strlit("Le");
            reveal_strlit("Be");
            reveal_strlit("Ne");
            reveal_strlit("<");
            reveal_strlit(">");
            reveal_strlit("u64");
            reveal_strlit("Le<u64>");
            reveal_strlit("Be<u64>");
            reveal_strlit("Ne<u64>");
        }
        let name = match tag {
            Endian::Little => "Le<u64>",
            Endian::Big => "Be<u64>",
            Endian::Native => "Ne<u64>",
        };
        assert(name@ =~= wrapper_name(tag, Self::int_name()));
        name
    }

    fn read(stream: &mut ByteSource, order: ByteOrder) -> (r: Result<u64, ReadError>) {
        match read_pattern::<8>(stream, order) {
            Ok(pattern) => {
                proof {
                    lemma_patterns_of_widths();
                }
                Ok(pattern as u64)
            },
            Err(error) => Err(error),
        }
    }
}

impl FixedInt for u128 {
    open spec fn byte_width() -> nat {
        16
    }

    open spec fn from_pattern(pattern: nat) -> u128 {
        pattern as u128
    }

    open spec fn pattern_of(value: u128) -> nat {
        value as nat
    }

    open spec fn int_name() -> Seq<char> {
        "u128"@
    }

    proof fn lemma_pattern_of(value: u128) {
        lemma_patterns_of_widths();
    }

    fn wrapped_name(tag: Endian) -> (name: &'static str) {
        proof {
            reveal_strlit("Le");
            reveal_strlit("Be");
            reveal_strlit("Ne");
            reveal_strlit("<");
            reveal_strlit(">");
            reveal_strlit("u128");
            reveal_strlit("Le<u128>");
            reveal_strlit("Be<u128>");
            reveal_strlit("Ne<u128>");
        }
        let name = match tag {
            Endian::Little => "Le<u128>",
            Endian::Big => "Be<u128>",
            Endian::Native => "Ne<u128>",
        };
        assert(name@ =~= wrapper_name(tag, Self::int_name()));
        name
    }

    fn read(stream: &mut ByteSource, order: ByteOrder) -> (r: Result<u128, ReadError>) {
        match read_pattern::<16>(stream, order) {
            Ok(pattern) => {
                proof {
                    lemma_patterns_of_widths();
                }
                Ok(pattern)
            },
            Err(error) => Err(error),
        }
    }
}

} // verus!
