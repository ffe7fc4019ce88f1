//! Byte-exact deserialization of fixed-layout values.
//!
//! Scalars are read as little-endian integers of their exact width;
//! arrays read their elements in index order; composite records read their
//! fields in declaration order. Every rule stops at the first short read.
use vstd::prelude::*;
use crate::stream::{
    read_le, PeSource, PeError, pow256, le_value, bytes_at, in_bounds, lemma_pow256_values,
};

verus! {

/// A two's-complement reading of an unsigned value `v` below `m`.
pub open spec fn to_signed(v: nat, m: nat) -> int {
    if v >= m / 2 {
        v - m
    } else {
        v as int
    }
}

/// A value that can be read from a byte stream at a fixed width.
pub trait Byteparse: Copy + Sized {
    /// Number of bytes the encoding occupies.
    spec fn byte_len() -> nat;

    /// The value encoded at offset `off` of `data`.
    spec fn spec_read(data: Seq<u8>, off: int) -> Self;

    /// Overwrites `self` with the value read at the stream position.
    /// On failure `self` may be partly overwritten.
    fn parse_to<S: PeSource>(&mut self, r: &mut S) -> (res: Result<(), PeError>)
        ensures
            final(r).bytes() == old(r).bytes(),
            res is Ok <==> in_bounds(old(r).bytes(), old(r).position(), Self::byte_len()),
            res is Ok ==> *final(self) == Self::spec_read(old(r).bytes(), old(r).position())
                && final(r).position() == old(r).position() + Self::byte_len(),
            res matches Err(e) ==> e == PeError::UnexpectedEof,
    ;

    /// Reads a fresh value at the stream position.
    fn parse<S: PeSource>(r: &mut S) -> (res: Result<Self, PeError>)
        where
            Self: Default,
        ensures
            final(r).bytes() == old(r).bytes(),
            res is Ok <==> in_bounds(old(r).bytes(), old(r).position(), Self::byte_len()),
            res matches Ok(v) ==> v == Self::spec_read(old(r).bytes(), old(r).position())
                && final(r).position() == old(r).position() + Self::byte_len(),
            res matches Err(e) ==> e == PeError::UnexpectedEof,
    {
        let mut s = Self::default();
        s.parse_to(r)?;
        Ok(s)
    }
}

/// A fixed-width integer, read by copying its bytes in little-endian order.
pub trait Bytecopy: Copy + Sized {
    /// Width of the integer in bytes.
    spec fn copy_len() -> nat;

    /// The integer whose little-endian encoding starts at `off` of `data`.
    spec fn spec_copy(data: Seq<u8>, off: int) -> Self;

    /// Overwrites `self` with the integer read at the stream position.
    fn copy_to<S: PeSource>(&mut self, r: &mut S) -> (res: Result<(), PeError>)
        ensures
            final(r).bytes() == old(r).bytes(),
            res is Ok <==> in_bounds(old(r).bytes(), old(r).position(), Self::copy_len()),
            res is Ok ==> *final(self) == Self::spec_copy(old(r).bytes(), old(r).position())
                && final(r).position() == old(r).position() + Self::copy_len(),
            res matches Err(e) ==> e == PeError::UnexpectedEof,
    ;
}

impl Bytecopy for u8 {
    open spec fn copy_len() -> nat {
        1
    }

    open spec fn spec_copy(data: Seq<u8>, off: int) -> u8 {
        le_value(bytes_at(data, off, 1)) as u8
    }

    fn copy_to<S: PeSource>(&mut self, r: &mut S) -> (res: Result<(), PeError>) {
        let v = read_le(r, 1)?;
        proof { lemma_pow256_values(); }
        *self = v as u8;
        Ok(())
    }
}

impl Bytecopy for u16 {
    open spec fn copy_len() -> nat {
        2
    }

    open spec fn spec_copy(data: Seq<u8>, off: int) -> u16 {
        le_value(bytes_at(data, off, 2)) as u16
    }

    fn copy_to<S: PeSource>(&mut self, r: &mut S) -> (res: Result<(), PeError>) {
        let v = read_le(r, 2)?;
        proof { lemma_pow256_values(); }
        *self = v as u16;
        Ok(())
    }
}

impl Bytecopy for u32 {
    open spec fn copy_len() -> nat {
        4
    }

    open spec fn spec_copy(data: Seq<u8>, off: int) -> u32 {
        le_value(bytes_at(data, off, 4)) as u32
    }

    fn copy_to<S: PeSource>(&mut self, r: &mut S) -> (res: Result<(), PeError>) {
        let v = read_le(r, 4)?;
        proof { lemma_pow256_values(); }
        *self = v as u32;
        Ok(())
    }
}

impl Bytecopy for u64 {
    open spec fn copy_len() -> nat {
        8
    }

    open spec fn spec_copy(data: Seq<u8>, off: int) -> u64 {
        le_value(bytes_at(data, off, 8)) as u64
    }

    fn copy_to<S: PeSource>(&mut self, r: &mut S) -> (res: Result<(), PeError>) {
        let v = read_le(r, 8)?;
        proof { lemma_pow256_values(); }
        *self = v as u64;
        Ok(())
    }
}

impl Bytecopy for u128 {
    open spec fn copy_len() -> nat {
        16
    }

    open spec fn spec_copy(data: Seq<u8>, off: int) -> u128 {
        le_value(bytes_at(data, off, 16)) as u128
    }

    fn copy_to<S: PeSource>(&mut self, r: &mut S) -> (res: Result<(), PeError>) {
        let v = read_le(r, 16)?;
        proof { lemma_pow256_values(); }
        *self = v;
        Ok(())
    }
}

impl Bytecopy for i8 {
    open spec fn copy_len() -> nat {
        1
    }

    open spec fn spec_copy(data: Seq<u8>, off: int) -> i8 {
        to_signed(le_value(bytes_at(data, off, 1)), pow256(1)) as i8
    }

    fn copy_to<S: PeSource>(&mut self, r: &mut S) -> (res: Result<(), PeError>) {
        let v = read_le(r, 1)?;
        proof { lemma_pow256_values(); }
        *self = if v >= 0x80 { (v as i16 - 0x100) as i8 } else { v as i8 };
        Ok(())
    }
}

impl Bytecopy for i16 {
    open spec fn copy_len() -> nat {
        2
    }

    open spec fn spec_copy(data: Seq<u8>, off: int) -> i16 {
        to_signed(le_value(bytes_at(data, off, 2)), pow256(2)) as i16
    }

    fn copy_to<S: PeSource>(&mut self, r: &mut S) -> (res: Result<(), PeError>) {
        let v = read_le(r, 2)?;
        proof { lemma_pow256_values(); }
        *self = if v >= 0x8000 { (v as i32 - 0x1_0000) as i16 } else { v as i16 };
        Ok(())
    }
}

impl Bytecopy for i32 {
    open spec fn copy_len() -> nat {
        4
    }

    open spec fn spec_copy(data: Seq<u8>, off: int) -> i32 {
        to_signed(le_value(bytes_at(data, off, 4)), pow256(4)) as i32
    }

    fn copy_to<S: PeSource>(&mut self, r: &mut S) -> (res: Result<(), PeError>) {
        let v = read_le(r, 4)?;
        proof { lemma_pow256_values(); }
        *self = if v >= 0x8000_0000 { (v as i64 - 0x1_0000_0000) as i32 } else { v as i32 };
        Ok(())
    }
}

impl Bytecopy for i64 {
    open spec fn copy_len() -> nat {
        8
    }

    open spec fn spec_copy(data: Seq<u8>, off: int) -> i64 {
        to_signed(le_value(bytes_at(data, off, 8)), pow256(8)) as i64
    }

    fn copy_to<S: PeSource>(&mut self, r: &mut S) -> (res: Result<(), PeError>) {
        let v = read_le(r, 8)?;
        proof { lemma_pow256_values(); }
        *self = if v >= 0x8000_0000_0000_0000 {
            (v as i128 - 0x1_0000_0000_0000_0000) as i64
        } else {
            v as i64
        };
        Ok(())
    }
}

impl Bytecopy for i128 {
    open spec fn copy_len() -> nat {
        16
    }

    open spec fn spec_copy(data: Seq<u8>, off: int) -> i128 {
        to_signed(le_value(bytes_at(data, off, 16)), pow256(16)) as i128
    }

    fn copy_to<S: PeSource>(&mut self, r: &mut S) -> (res: Result<(), PeError>) {
        let v = read_le(r, 16)?;
        proof { lemma_pow256_values(); }
        *self = if v >= 0x8000_0000_0000_0000_0000_0000_0000_0000 {
            (v - 0x8000_0000_0000_0000_0000_0000_0000_0000) as i128 + i128::MIN
        } else {
            v as i128
        };
        Ok(())
    }
}

/// Pointer-sized integers are read at the target's pointer width.
impl Bytecopy for usize {
    open spec fn copy_len() -> nat {
        vstd::layout::size_of::<usize>()
    }

    open spec fn spec_copy(data: Seq<u8>, off: int) -> usize {
        le_value(bytes_at(data, off, vstd::layout::size_of::<usize>())) as usize
    }

    fn copy_to<S: PeSource>(&mut self, r: &mut S) -> (res: Result<(), PeError>) {
        let w = core::mem::size_of::<usize>();
        proof {
            broadcast use vstd::layout::layout_of_primitives;
            lemma_pow256_values();
            assert(w == 4 <==> usize::MAX == 0xffff_ffff);
        }
        let v = read_le(r, w)?;
        *self = v as usize;
        Ok(())
    }
}

impl Bytecopy for isize {
    open spec fn copy_len() -> nat {
        vstd::layout::size_of::<isize>()
    }

    open spec fn spec_copy(data: Seq<u8>, off: int) -> isize {
        let w = vstd::layout::size_of::<isize>();
        to_signed(le_value(bytes_at(data, off, w)), pow256(w)) as isize
    }

    fn copy_to<S: PeSource>(&mut self, r: &mut S) -> (res: Result<(), PeError>) {
        let w = core::mem::size_of::<isize>();
        proof {
            broadcast use vstd::layout::layout_of_primitives;
            lemma_pow256_values();
            assert(w == 4 <==> usize::MAX == 0xffff_ffff);
            assert(usize::MAX == 2 * isize::MAX + 1);
            assert(isize::MIN == -isize::MAX - 1);
        }
        let v = read_le(r, w)?;
        *self = if v > isize::MAX as u128 {
            (v as i128 - usize::MAX as i128 - 1) as isize
        } else {
            v as isize
        };
        Ok(())
    }
}

/// Reading a value of type `T` straight from a byte source.
pub trait ByteparseHelper<T: Byteparse + Default>: PeSource {
    fn parse(&mut self) -> (res: Result<T, PeError>)
        ensures
            final(self).bytes() == old(self).bytes(),
            res is Ok <==> in_bounds(old(self).bytes(), old(self).position(), T::byte_len()),
            res matches Ok(v) ==> v == T::spec_read(old(self).bytes(), old(self).position())
                && final(self).position() == old(self).position() + T::byte_len(),
            res matches Err(e) ==> e == PeError::UnexpectedEof,
    ;
}

impl<T: Byteparse + Default, S: PeSource> ByteparseHelper<T> for S {
    fn parse(&mut self) -> (res: Result<T, PeError>) {
        T::parse(self)
    }
}

/// Integers are read by a plain copy of their bytes.
impl<T: Bytecopy> Byteparse for T {
    open spec fn byte_len() -> nat {
        T::copy_len()
    }

    open spec fn spec_read(data: Seq<u8>, off: int) -> T {
        T::spec_copy(data, off)
    }

    fn parse_to<S: PeSource>(&mut self, r: &mut S) -> (res: Result<(), PeError>) {
        self.copy_to(r)
    }
}

/// Whether every element of `a` is the value encoded at its slot.
pub open spec fn array_read_at<T: Byteparse, const N: usize>(a: [T; N], data: Seq<u8>, off: int) -> bool {
    forall|i: int| 0 <= i < N ==> #[trigger] a[i] == T::spec_read(data, off + i * T::byte_len())
}

impl<T: Byteparse, const N: usize> Byteparse for [T; N] {
    open spec fn byte_len() -> nat {
        N as nat * T::byte_len()
    }

    open spec fn spec_read(data: Seq<u8>, off: int) -> [T; N] {
        choose|a: [T; N]| array_read_at(a, data, off)
    }

    fn parse_to<S: PeSource>(&mut self, r: &mut S) -> (res: Result<(), PeError>) {
        let ghost d = r.bytes();
        let ghost p = r.position();
        let ghost l = T::byte_len();
        proof { r.lemma_position_range(); }
        let mut i: usize = 0;
        while i < N
            invariant
                0 <= p,
                d == old(r).bytes(),
                p == old(r).position(),
                l == T::byte_len(),
                r.bytes() == d,
                r.position() == p + i * l,
                i <= N,
                in_bounds(d, p, (i * l) as nat),
                forall|j: int| 0 <= j < i ==> #[trigger] self[j] == T::spec_read(d, p + j * l),
            decreases N - i,
        {
            proof {
                assert(p + i * l + l == p + (i + 1) * l) by (nonlinear_arith);
                assert((i + 1) * l <= N * l) by (nonlinear_arith)
                    requires
                        i < N,
                ;
            }
            let mut v = self[i];
            match v.parse_to(r) {
                Ok(()) => {},
                Err(e) => {
                    proof {
                        assert(N * l > 0) by (nonlinear_arith)
                            requires
                                l > 0,
                                i < N,
                        ;
                    }
                    return Err(e);
                },
            }
            self[i] = v;
            i = i + 1;
        }
        proof {
            let me = *self;
            assert(array_read_at(me, d, p));
            let a = Self::spec_read(d, p);
            assert(array_read_at(a, d, p));
            assert(a =~= me);
        }
        Ok(())
    }
}

} // verus!
