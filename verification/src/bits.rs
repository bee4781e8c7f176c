//! Big-endian bit fields of a byte buffer, and the cursor that reads them.

use deku::bitvec::{BitSlice, Msb0};
use deku::ctx::{BitSize, Endian};
use deku::DekuRead;
use vstd::arithmetic::power2::*;
use vstd::prelude::*;

use crate::error::DecodeError;

verus! {

/// The bit at index `i` of the stream, where index 0 is the most significant
/// bit of the first byte.
pub open spec fn bit_at(bytes: Seq<u8>, i: int) -> nat {
    ((bytes[i / 8] as nat) / pow2((7 - i % 8) as nat)) % 2
}

/// The unsigned number that the `width` bits starting at bit `at` spell,
/// most significant bit first.
pub open spec fn bits_value(bytes: Seq<u8>, at: int, width: nat) -> nat
    decreases width,
{
    if width == 0 {
        0
    } else {
        2 * bits_value(bytes, at, (width - 1) as nat) + bit_at(bytes, at + width - 1)
    }
}

/// A field of `width` bits is below two to the power `width`.
pub proof fn lemma_bits_value_bound(bytes: Seq<u8>, at: int, width: nat)
    ensures
        bits_value(bytes, at, width) < pow2(width),
    decreases width,
{
    if width == 0 {
        lemma2_to64();
    } else {
        lemma_bits_value_bound(bytes, at, (width - 1) as nat);
        lemma_pow2_unfold(width);
    }
}

/// deku's error type, of which nothing is read: a failed read is told from
/// a successful one, and no more.
#[verifier::external_type_specification]
#[verifier::external_body]
pub struct ExDekuError(deku::DekuError);

/// Calls deku's bit-sized big-endian read of a `u64` (`u64::read` with the
/// context `(Endian::Big, BitSize(width))`) on the bits of `bytes` from bit
/// `at` on. The read fails exactly when fewer than `width` bits are left, and
/// otherwise yields the first `width` bits as a right-aligned number.
#[verifier::external_body]
fn read_be(bytes: &[u8], at: usize, width: usize) -> (r: Result<u64, deku::DekuError>)
    requires
        bytes.len() <= usize::MAX / 64,
        at <= 8 * bytes.len(),
        width <= 64,
    ensures
        r is Ok <==> at + width <= 8 * bytes.len(),
        r is Ok ==> r->Ok_0 == bits_value(bytes@, at as int, width as nat),
{
    let bits = BitSlice::<u8, Msb0>::from_slice(bytes);
    match u64::read(&bits[at..], (Endian::Big, BitSize(width))) {
        Ok((_, value)) => Ok(value),
        Err(e) => Err(e),
    }
}

/// A cursor over part of a byte buffer that hands out big-endian bit fields.
pub struct BitReader<'a> {
    bytes: &'a [u8],
    pos: usize,
    end: usize,
}

impl<'a> BitReader<'a> {
    #[verifier::type_invariant]
    spec fn inv(self) -> bool {
        &&& self.bytes@.len() <= usize::MAX / 64
        &&& self.pos <= self.end
        &&& self.end <= 8 * self.bytes@.len()
    }

    /// The buffer that is read.
    pub closed spec fn stream(&self) -> Seq<u8> {
        self.bytes@
    }

    /// The index of the next bit to be read.
    pub closed spec fn cursor(&self) -> int {
        self.pos as int
    }

    /// The index just past the last bit that may be read.
    pub closed spec fn limit(&self) -> int {
        self.end as int
    }

    /// Whether `self` reads the same buffer up to the same limit as `other`.
    pub open spec fn same_stream(&self, other: &Self) -> bool {
        self.stream() == other.stream() && self.limit() == other.limit()
    }

    /// A reader over the whole of `bytes`, at its first bit.
    pub fn new(bytes: &'a [u8]) -> (r: Self)
        requires
            bytes@.len() <= usize::MAX / 64,
        ensures
            r.stream() == bytes@,
            r.cursor() == 0,
            r.limit() == 8 * bytes@.len(),
    {
        BitReader { bytes, pos: 0, end: 8 * bytes.len() }
    }

    /// The number of bits between the cursor and the limit.
    pub fn remaining(&self) -> (n: usize)
        ensures
            n == self.limit() - self.cursor(),
            0 <= self.cursor() <= self.limit() <= 8 * self.stream().len(),
    {
        proof {
            use_type_invariant(self);
        }
        self.end - self.pos
    }

    /// The index of the next bit to be read.
    pub fn position(&self) -> (n: usize)
        ensures
            n == self.cursor(),
    {
        self.pos
    }

    /// What a read of an item that takes `width` bits promises. On a reader
    /// that has `width` bits left the result is `expected`, and where that is
    /// a value the cursor stands `width` bits further on. On a shorter one
    /// the result is `NotEnoughBits` and the cursor has not moved.
    pub open spec fn reads<T>(
        before: &Self,
        after: &Self,
        width: int,
        expected: Result<T, DecodeError>,
        r: Result<T, DecodeError>,
    ) -> bool {
        &&& after.same_stream(before)
        &&& if before.cursor() + width <= before.limit() {
            r == expected && (r is Ok ==> after.cursor() == before.cursor() + width)
        } else {
            r == Err::<T, DecodeError>(DecodeError::NotEnoughBits) && after.cursor()
                == before.cursor()
        }
    }

    /// The number that the next `width` bits spell.
    pub open spec fn field(&self, width: nat) -> nat {
        bits_value(self.stream(), self.cursor(), width)
    }

    /// Reads the next `width` bits as a number.
    pub fn read_bits(&mut self, width: usize) -> (r: Result<u64, DecodeError>)
        requires
            width <= 64,
        ensures
            Self::reads(
                old(self),
                final(self),
                width as int,
                Ok(old(self).field(width as nat) as u64),
                r,
            ),
            old(self).field(width as nat) < pow2(width as nat) <= pow2(64),
            pow2(64) == 0x1_0000_0000_0000_0000,
    {
        proof {
            use_type_invariant(&*self);
            lemma_bits_value_bound(self.stream(), self.cursor(), width as nat);
            lemma2_to64();
            if width < 64 {
                lemma_pow2_strictly_increases(width as nat, 64);
            }
        }
        if width > self.end - self.pos {
            return Err(DecodeError::NotEnoughBits);
        }
        match read_be(self.bytes, self.pos, width) {
            Ok(value) => {
                self.pos = self.pos + width;
                Ok(value)
            },
            Err(_) => Err(DecodeError::NotEnoughBits),
        }
    }

    /// Reads the next `width` bits, at most 8, as a `u8`.
    pub fn read_u8(&mut self, width: usize) -> (r: Result<u8, DecodeError>)
        requires
            width <= 8,
        ensures
            Self::reads(
                old(self),
                final(self),
                width as int,
                Ok(old(self).field(width as nat) as u8),
                r,
            ),
            old(self).field(width as nat) < pow2(width as nat) <= 0x100,
    {
        proof {
            lemma2_to64();
            if width < 8 {
                lemma_pow2_strictly_increases(width as nat, 8);
            }
        }
        match self.read_bits(width) {
            Ok(value) => Ok(value as u8),
            Err(e) => Err(e),
        }
    }

    /// Reads the next `width` bits, at most 16, as a `u16`.
    pub fn read_u16(&mut self, width: usize) -> (r: Result<u16, DecodeError>)
        requires
            width <= 16,
        ensures
            Self::reads(
                old(self),
                final(self),
                width as int,
                Ok(old(self).field(width as nat) as u16),
                r,
            ),
            old(self).field(width as nat) < pow2(width as nat) <= 0x1_0000,
    {
        proof {
            lemma2_to64();
            if width < 16 {
                lemma_pow2_strictly_increases(width as nat, 16);
            }
        }
        match self.read_bits(width) {
            Ok(value) => Ok(value as u16),
            Err(e) => Err(e),
        }
    }

    /// Reads the next `width` bits, at most 32, as a `u32`.
    pub fn read_u32(&mut self, width: usize) -> (r: Result<u32, DecodeError>)
        requires
            width <= 32,
        ensures
            Self::reads(
                old(self),
                final(self),
                width as int,
                Ok(old(self).field(width as nat) as u32),
                r,
            ),
            old(self).field(width as nat) < pow2(width as nat) <= 0x1_0000_0000,
    {
        proof {
            lemma2_to64();
            if width < 32 {
                lemma_pow2_strictly_increases(width as nat, 32);
            }
        }
        match self.read_bits(width) {
            Ok(value) => Ok(value as u32),
            Err(e) => Err(e),
        }
    }

    /// Reads the next bit as a flag: set is `true`.
    pub fn read_bool(&mut self) -> (r: Result<bool, DecodeError>)
        ensures
            Self::reads(old(self), final(self), 1, Ok(old(self).field(1) == 1), r),
    {
        match self.read_bits(1) {
            Ok(value) => Ok(value == 1),
            Err(e) => Err(e),
        }
    }

    /// Reads the next `count` whole bytes, which need not start on a byte
    /// boundary of the buffer.
    pub fn read_bytes(&mut self, count: usize) -> (r: Result<Vec<u8>, DecodeError>)
        ensures
            final(self).same_stream(old(self)),
            match r {
                Ok(bytes) => {
                    &&& old(self).cursor() + 8 * count <= old(self).limit()
                    &&& final(self).cursor() == old(self).cursor() + 8 * count
                    &&& bytes@ == bytes_at(old(self).stream(), old(self).cursor(), count as nat)
                },
                Err(e) => {
                    &&& e == DecodeError::NotEnoughBits
                    &&& old(self).cursor() + 8 * count > old(self).limit()
                    &&& final(self).cursor() == old(self).cursor()
                },
            },
    {
        if count > self.remaining() / 8 {
            return Err(DecodeError::NotEnoughBits);
        }
        let ghost start = self.cursor();
        let mut out: Vec<u8> = Vec::new();
        let mut i: usize = 0;
        while i < count
            invariant
                self.same_stream(old(self)),
                start == old(self).cursor(),
                start + 8 * count <= self.limit(),
                i <= count,
                self.cursor() == start + 8 * i,
                out@ == bytes_at(self.stream(), start, i as nat),
            decreases count - i,
        {
            match self.read_u8(8) {
                Ok(byte) => {
                    out.push(byte);
                },
                Err(e) => {
                    return Err(e);
                },
            }
            i = i + 1;
            assert(out@ =~= bytes_at(self.stream(), start, i as nat));
        }
        Ok(out)
    }

    /// Moves the cursor `width` bits on without reading them.
    pub fn skip(&mut self, width: usize) -> (r: Result<(), DecodeError>)
        ensures
            Self::reads(old(self), final(self), width as int, Ok(()), r),
    {
        proof {
            use_type_invariant(&*self);
        }
        if width > self.remaining() {
            return Err(DecodeError::NotEnoughBits);
        }
        self.pos = self.pos + width;
        Ok(())
    }

    /// Splits off the next `width` bits as a reader of their own, which
    /// cannot read past them, and moves this reader beyond them.
    pub fn block(&mut self, width: usize) -> (r: Result<BitReader<'a>, DecodeError>)
        ensures
            final(self).same_stream(old(self)),
            match r {
                Ok(part) => {
                    &&& old(self).cursor() + width <= old(self).limit()
                    &&& final(self).cursor() == old(self).cursor() + width
                    &&& part.stream() == old(self).stream()
                    &&& part.cursor() == old(self).cursor()
                    &&& part.limit() == old(self).cursor() + width
                },
                Err(e) => {
                    &&& e == DecodeError::NotEnoughBits
                    &&& old(self).cursor() + width > old(self).limit()
                    &&& final(self).cursor() == old(self).cursor()
                },
            },
    {
        proof {
            use_type_invariant(&*self);
        }
        if width > self.remaining() {
            return Err(DecodeError::NotEnoughBits);
        }
        let part = BitReader { bytes: self.bytes, pos: self.pos, end: self.pos + width };
        self.pos = self.pos + width;
        Ok(part)
    }
}

/// The `count` bytes that the bits from `at` on spell, eight bits to a byte.
pub open spec fn bytes_at(bytes: Seq<u8>, at: int, count: nat) -> Seq<u8> {
    Seq::new(count, |i: int| bits_value(bytes, at + 8 * i, 8) as u8)
}

} // verus!
