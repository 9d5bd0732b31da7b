//! The byte source that decoders read from: a buffer held in memory and a
//! cursor into it, with one primitive, "read exactly N bytes or fail".

use crate::text::{decimal, decimal_text};
use vstd::prelude::*;
use vstd::string::StringExecFns;

verus! {

/// Why a read was refused: it asked for `needed` bytes where only `available`
/// were left in the source.
#[derive(Clone, Copy, Debug, PartialEq, Eq, Structural)]
pub struct ReadError {
    pub needed: usize,
    pub available: usize,
}

/// The text of a refused read that asked for `needed` bytes and found `available`.
pub open spec fn read_error_text(needed: nat, available: nat) -> Seq<char> {
    "needed "@ + decimal(needed) + " bytes but only "@ + decimal(available) + " remained"@
}

impl ReadError {
    /// The text of this error.
    pub open spec fn text(&self) -> Seq<char> {
        read_error_text(self.needed as nat, self.available as nat)
    }

    /// Renders this error for a message.
    pub fn render(&self) -> (s: String)
        ensures
            s@ == self.text(),
    {
        let needed = decimal_text(self.needed);
        let available = decimal_text(self.available);
        let mut s = String::from_str("needed ");
        s.append(needed.as_str());
        s.append(" bytes but only ");
        s.append(available.as_str());
        s.append(" remained");
        s
    }
}

/// A buffer of bytes and a read cursor.
///
/// Beside the bytes and the cursor the source keeps, in ghost state, the
/// outcome of every read that was asked of it, oldest first: `true` for a read
/// that was served, `false` for one that was refused. Contracts use it to say
/// what a decoder asked of the source, and when it stopped asking.
pub struct ByteSource {
    data: Vec<u8>,
    pos: usize,
    log: Ghost<Seq<bool>>,
}

impl ByteSource {
    #[verifier::type_invariant]
    spec fn cursor_in_bounds(self) -> bool {
        self.pos <= self.data@.len()
    }

    /// Every byte of the buffer, consumed or not.
    pub closed spec fn bytes(&self) -> Seq<u8> {
        self.data@
    }

    /// The number of bytes that reads have consumed: the cursor.
    pub closed spec fn consumed(&self) -> nat {
        self.pos as nat
    }

    /// The outcome of each read asked so far, oldest first.
    pub closed spec fn outcomes(&self) -> Seq<bool> {
        self.log@
    }

    /// The number of bytes between the cursor and the end of the buffer.
    pub open spec fn available(&self) -> nat {
        (self.bytes().len() - self.consumed()) as nat
    }

    /// The bytes between the cursor and the end of the buffer.
    pub open spec fn remaining(&self) -> Seq<u8> {
        self.bytes().skip(self.consumed() as int)
    }

    /// The `n` bytes that start at the cursor.
    pub open spec fn upcoming(&self, n: nat) -> Seq<u8> {
        self.bytes().subrange(self.consumed() as int, (self.consumed() + n) as int)
    }

    /// A source over `data`, with the cursor at its first byte and no read asked yet.
    pub fn new(data: Vec<u8>) -> (source: Self)
        ensures
            source.bytes() == data@,
            source.consumed() == 0,
            source.outcomes() == Seq::<bool>::empty(),
    {
        ByteSource { data, pos: 0, log: Ghost(Seq::empty()) }
    }

    /// The cursor: how many bytes have been consumed.
    pub fn position(&self) -> (n: usize)
        ensures
            n == self.consumed(),
            self.consumed() <= self.bytes().len(),
    {
        proof {
            use_type_invariant(self);
        }
        self.pos
    }

    /// How many bytes are left to read.
    pub fn remaining_len(&self) -> (n: usize)
        ensures
            n == self.available(),
            self.consumed() <= self.bytes().len(),
    {
        proof {
            use_type_invariant(self);
        }
        self.data.len() - self.pos
    }

    /// Reads exactly `N` bytes or fails.
    ///
    /// Where at least `N` bytes are left, they are copied into a buffer that
    /// starts out zeroed, and the cursor moves past them. Where fewer are left
    /// the read is refused and consumes nothing. Either way the outcome is
    /// recorded.
    pub fn read_exact<const N: usize>(&mut self) -> (r: Result<[u8; N], ReadError>)
        ensures
            final(self).bytes() == old(self).bytes(),
            final(self).consumed() <= final(self).bytes().len(),
            old(self).available() >= N ==> {
                &&& r matches Ok(buf)
                &&& buf@ == old(self).upcoming(N as nat)
                &&& final(self).consumed() == old(self).consumed() + N
                &&& final(self).outcomes() == old(self).outcomes().push(true)
            },
            old(self).available() < N ==> {
                &&& r == Err::<[u8; N], ReadError>(
                    ReadError { needed: N, available: old(self).available() as usize },
                )
                &&& final(self).consumed() == old(self).consumed()
                &&& final(self).outcomes() == old(self).outcomes().push(false)
            },
    {
        proof {
            use_type_invariant(&*self);
        }
        let available: usize = self.data.len() - self.pos;
        if available < N {
            self.log = Ghost(self.log@.push(false));
            return Err(ReadError { needed: N, available });
        }
        let mut buf = [0u8; N];
        let mut i: usize = 0;
        while i < N
            invariant
                i <= N,
                self.pos + N <= self.data@.len() <= usize::MAX,
                forall|k: int| 0 <= k < i ==> buf@[k] == self.data@[self.pos + k],
            decreases N - i,
        {
            buf[i] = self.data[self.pos + i];
            i = i + 1;
        }
        assert(buf@ =~= self.data@.subrange(self.pos as int, self.pos + N));
        self.pos = self.pos + N;
        self.log = Ghost(self.log@.push(true));
        Ok(buf)
    }
}

} // verus!
