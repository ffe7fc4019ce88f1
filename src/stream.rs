//! A seekable byte source over an owned buffer.
use vstd::prelude::*;

verus! {

/// Failure of a decode step.
#[derive(Clone, Copy, Debug, PartialEq, Eq, Structural)]
pub enum PeError {
    /// A read ran past the end of the source.
    UnexpectedEof,
    /// The DOS header does not start with "MZ".
    BadDosMagic,
    /// The NT header does not start with "PE\0\0".
    BadNtSignature,
}

/// Number of `256`-valued digits: `256^k`.
pub open spec fn pow256(k: nat) -> nat
    decreases k,
{
    if k == 0 {
        1
    } else {
        256 * pow256((k - 1) as nat)
    }
}

/// The little-endian value of a byte string.
pub open spec fn le_value(b: Seq<u8>) -> nat
    decreases b.len(),
{
    if b.len() == 0 {
        0
    } else {
        b[0] as nat + 256 * le_value(b.drop_first())
    }
}

/// The bytes of `data` starting at `off`, `n` of them (meaningful when they exist).
pub open spec fn bytes_at(data: Seq<u8>, off: int, n: nat) -> Seq<u8> {
    if n == 0 {
        Seq::empty()
    } else {
        data.subrange(off, off + n)
    }
}

/// Whether `n` bytes starting at `off` lie inside `data` (an empty read
/// succeeds anywhere).
pub open spec fn in_bounds(data: Seq<u8>, off: int, n: nat) -> bool {
    0 <= off && (n == 0 || off + n <= data.len())
}

/// Index of the first NUL byte of `s`, or its length when there is none.
pub open spec fn nul_index(s: Seq<u8>) -> nat
    decreases s.len(),
{
    if s.len() == 0 {
        0
    } else if s[0] == 0 {
        0
    } else {
        1 + nul_index(s.drop_first())
    }
}

/// The bytes of `data` from `off` to its end (empty past the end).
pub open spec fn tail_from(data: Seq<u8>, off: int) -> Seq<u8> {
    if 0 <= off < data.len() {
        data.subrange(off, data.len() as int)
    } else {
        Seq::empty()
    }
}

/// Whether a NUL byte follows offset `off` in `data`.
pub open spec fn has_nul(data: Seq<u8>, off: int) -> bool {
    nul_index(tail_from(data, off)) < tail_from(data, off).len()
}

/// What a delimited read returns at `off` when a NUL follows: the bytes up to
/// and including the first NUL.
pub open spec fn until_nul(data: Seq<u8>, off: int) -> Seq<u8> {
    tail_from(data, off).take((nul_index(tail_from(data, off)) + 1) as int)
}

pub proof fn lemma_pow256_values()
    ensures
        pow256(1) == 0x100,
        pow256(2) == 0x1_0000,
        pow256(4) == 0x1_0000_0000,
        pow256(8) == 0x1_0000_0000_0000_0000,
        pow256(16) == 0x1_0000_0000_0000_0000_0000_0000_0000_0000,
{
    reveal_with_fuel(pow256, 17);
}

pub proof fn lemma_pow256_mono(a: nat, b: nat)
    requires
        a <= b,
    ensures
        pow256(a) <= pow256(b),
    decreases b,
{
    if a < b {
        lemma_pow256_mono(a, (b - 1) as nat);
    }
}

/// A byte source: absolute seek, reads of an exact length that fail when
/// the source ends first, and reads up to a NUL delimiter.
pub trait PeSource: Sized {
    /// The bytes of the source.
    spec fn bytes(&self) -> Seq<u8>;

    /// The cursor position.
    spec fn position(&self) -> int;

    proof fn lemma_position_range(&self)
        ensures
            0 <= self.position() <= u64::MAX,
    ;

    /// Number of bytes in the source.
    fn len(&self) -> (r: usize)
        ensures
            r == self.bytes().len(),
    ;

    /// Moves the cursor to an absolute offset; any offset is accepted.
    fn seek(&mut self, off: u64)
        ensures
            final(self).bytes() == old(self).bytes(),
            final(self).position() == off,
    ;

    /// Reads exactly `n` bytes, or fails when fewer remain.
    fn read_exact(&mut self, n: u64) -> (r: Result<Vec<u8>, PeError>)
        ensures
            final(self).bytes() == old(self).bytes(),
            r is Ok <==> in_bounds(old(self).bytes(), old(self).position(), n as nat),
            r matches Ok(v) ==> v@ == bytes_at(old(self).bytes(), old(self).position(), n as nat)
                && final(self).position() == old(self).position() + n,
            r matches Err(e) ==> e == PeError::UnexpectedEof,
    ;

    /// Reads up to and including the first NUL byte; fails when the source
    /// ends before one.
    fn read_until_nul(&mut self) -> (r: Result<Vec<u8>, PeError>)
        ensures
            final(self).bytes() == old(self).bytes(),
            r is Ok <==> has_nul(old(self).bytes(), old(self).position()),
            r matches Ok(v) ==> v@ == until_nul(old(self).bytes(), old(self).position()),
            r matches Err(e) ==> e == PeError::UnexpectedEof,
    ;
}

/// A cursor over an owned byte buffer.
pub struct ByteStream {
    data: Vec<u8>,
    pos: u64,
}

impl ByteStream {
    /// A source over `data`, positioned at its start.
    pub fn new(data: Vec<u8>) -> (r: ByteStream)
        ensures
            r.bytes() == data@,
            r.position() == 0,
    {
        ByteStream { data, pos: 0 }
    }
}

impl PeSource for ByteStream {
    closed spec fn bytes(&self) -> Seq<u8> {
        self.data@
    }

    closed spec fn position(&self) -> int {
        self.pos as int
    }

    proof fn lemma_position_range(&self) {
    }

    fn len(&self) -> (r: usize) {
        self.data.len()
    }

    fn seek(&mut self, off: u64) {
        self.pos = off;
    }

    fn read_exact(&mut self, n: u64) -> (r: Result<Vec<u8>, PeError>) {
        if n == 0 {
            let v: Vec<u8> = Vec::new();
            assert(v@ =~= bytes_at(self.data@, self.pos as int, 0));
            return Ok(v);
        }
        let len = self.data.len() as u64;
        if self.pos > len || n > len - self.pos {
            return Err(PeError::UnexpectedEof);
        }
        let start = self.pos as usize;
        let end = (self.pos + n) as usize;
        let mut v: Vec<u8> = Vec::new();
        let mut i: usize = start;
        while i < end
            invariant
                start <= i <= end,
                end <= self.data@.len(),
                v@ == self.data@.subrange(start as int, i as int),
            decreases end - i,
        {
            v.push(self.data[i]);
            assert(v@ =~= self.data@.subrange(start as int, i + 1));
            i = i + 1;
        }
        self.pos = self.pos + n;
        Ok(v)
    }

    fn read_until_nul(&mut self) -> (r: Result<Vec<u8>, PeError>) {
        let len = self.data.len();
        let ghost t = tail_from(self.data@, self.pos as int);
        let mut v: Vec<u8> = Vec::new();
        if self.pos >= len as u64 {
            return Err(PeError::UnexpectedEof);
        }
        let start = self.pos as usize;
        let mut i: usize = start;
        let mut found: bool = false;
        while i < len && !found
            invariant
                start <= i <= len,
                len == self.data@.len(),
                t == self.data@.subrange(start as int, len as int),
                v@ == self.data@.subrange(start as int, i as int),
                found ==> i > start && self.data@[i - 1] == 0 && nul_index(t) == i - 1 - start,
                !found ==> nul_index(t) >= i - start,
            decreases len - i,
        {
            proof { lemma_nul_index_step(t, (i - start) as nat); }
            let c = self.data[i];
            v.push(c);
            assert(v@ =~= self.data@.subrange(start as int, i + 1));
            if c == 0 {
                found = true;
            }
            i = i + 1;
        }
        if !found {
            proof { lemma_nul_index_le(t); }
            return Err(PeError::UnexpectedEof);
        }
        self.pos = i as u64;
        assert(v@ =~= t.take((nul_index(t) + 1) as int));
        Ok(v)
    }
}

/// Reads `n <= 16` bytes as a little-endian unsigned value.
pub fn read_le<S: PeSource>(r: &mut S, n: usize) -> (v: Result<u128, PeError>)
    requires
        n <= 16,
    ensures
        final(r).bytes() == old(r).bytes(),
        v is Ok <==> in_bounds(old(r).bytes(), old(r).position(), n as nat),
        v matches Ok(x) ==> x == le_value(bytes_at(old(r).bytes(), old(r).position(), n as nat))
            && x < pow256(n as nat)
            && final(r).position() == old(r).position() + n,
        v matches Err(e) ==> e == PeError::UnexpectedEof,
{
    let b = r.read_exact(n as u64)?;
    let ghost s = b@;
    let mut acc: u128 = 0;
    let mut i: usize = n;
    proof {
        assert(s.subrange(n as int, n as int) =~= Seq::<u8>::empty());
        lemma_pow256_values();
        lemma_pow256_mono(n as nat, 16);
    }
    while i > 0
        invariant
            i <= n <= 16,
            b@ == s,
            s.len() == n,
            acc == le_value(s.subrange(i as int, n as int)),
            acc < pow256((n - i) as nat),
        decreases i,
    {
        let ghost prev = acc;
        proof {
            lemma_pow256_values();
            lemma_pow256_mono((n - i + 1) as nat, 16);
            let p = pow256((n - i) as nat);
            assert(prev * 256 + 255 < 256 * p) by (nonlinear_arith)
                requires
                    prev < p,
            ;
            assert(s.subrange(i - 1, n as int).drop_first() =~= s.subrange(i as int, n as int));
        }
        acc = acc * 256 + b[i - 1] as u128;
        i = i - 1;
    }
    assert(s.subrange(0, n as int) =~= s);
    Ok(acc)
}

pub proof fn lemma_le_value_2(s: Seq<u8>)
    requires
        s.len() == 2,
    ensures
        le_value(s) == s[0] + 256 * s[1],
{
    assert(s.drop_first().drop_first().len() == 0);
    reveal_with_fuel(le_value, 3);
}

pub proof fn lemma_nul_index_le(s: Seq<u8>)
    ensures
        nul_index(s) <= s.len(),
    decreases s.len(),
{
    if s.len() > 0 {
        lemma_nul_index_le(s.drop_first());
    }
}

pub proof fn lemma_nul_index_step(t: Seq<u8>, k: nat)
    requires
        k < t.len(),
        nul_index(t) >= k,
    ensures
        t[k as int] == 0 ==> nul_index(t) == k,
        t[k as int] != 0 ==> nul_index(t) >= k + 1,
    decreases k,
{
    if k > 0 {
        lemma_nul_index_step(t.drop_first(), (k - 1) as nat);
    }
}

} // verus!
