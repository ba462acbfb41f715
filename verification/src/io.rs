//! Big-endian readers over profile bytes.
use vstd::prelude::*;

use crate::error::Error;

verus! {

/// The big-endian 16-bit number stored at `s[i..i + 2]`.
pub open spec fn be16(s: Seq<u8>, i: int) -> int {
    s[i] as int * 0x100 + s[i + 1] as int
}

/// The big-endian 32-bit number stored at `s[i..i + 4]`.
pub open spec fn be32(s: Seq<u8>, i: int) -> int {
    s[i] as int * 0x100_0000 + s[i + 1] as int * 0x1_0000 + s[i + 2] as int * 0x100
        + s[i + 3] as int
}

/// The two's-complement reading of a 32-bit pattern `u`.
pub open spec fn signed32(u: int) -> int {
    if u < 0x8000_0000 {
        u
    } else {
        u - 0x1_0000_0000
    }
}

/// A source of profile bytes read front to back. `unread()` is what is left;
/// a read that fails leaves it as it was.
pub trait ProfileReader {
    /// The bytes that have not been read yet.
    spec fn unread(&self) -> Seq<u8>;

    /// Reads a big-endian `u16`; fails with `Truncated` when fewer than two bytes are left.
    fn read_u16(&mut self) -> (r: Result<u16, Error>)
        ensures
            match r {
                Ok(v) => {
                    &&& old(self).unread().len() >= 2
                    &&& v == be16(old(self).unread(), 0)
                    &&& final(self).unread() == old(self).unread().skip(2)
                },
                Err(e) => {
                    &&& old(self).unread().len() < 2
                    &&& e == Error::Truncated
                    &&& final(self).unread() == old(self).unread()
                },
            },
    ;

    /// Reads a big-endian `u32`; fails with `Truncated` when fewer than four bytes are left.
    fn read_u32(&mut self) -> (r: Result<u32, Error>)
        ensures
            match r {
                Ok(v) => {
                    &&& old(self).unread().len() >= 4
                    &&& v == be32(old(self).unread(), 0)
                    &&& final(self).unread() == old(self).unread().skip(4)
                },
                Err(e) => {
                    &&& old(self).unread().len() < 4
                    &&& e == Error::Truncated
                    &&& final(self).unread() == old(self).unread()
                },
            },
    ;

    /// Reads a big-endian s15Fixed16 number, returned as its raw `i32`.
    fn read_s15f16(&mut self) -> (r: Result<i32, Error>)
        ensures
            match r {
                Ok(v) => {
                    &&& old(self).unread().len() >= 4
                    &&& v == signed32(be32(old(self).unread(), 0))
                    &&& final(self).unread() == old(self).unread().skip(4)
                },
                Err(e) => {
                    &&& old(self).unread().len() < 4
                    &&& e == Error::Truncated
                    &&& final(self).unread() == old(self).unread()
                },
            },
    ;

    /// Reads `n` consecutive big-endian `u16` values.
    fn read_u16_array(&mut self, n: usize) -> (r: Result<Vec<u16>, Error>)
        ensures
            match r {
                Ok(v) => {
                    &&& old(self).unread().len() >= 2 * n
                    &&& v@.len() == n
                    &&& forall|k: int|
                        0 <= k < n ==> #[trigger] v@[k] == be16(old(self).unread(), 2 * k)
                    &&& final(self).unread() == old(self).unread().skip(2 * n)
                },
                Err(e) => {
                    &&& old(self).unread().len() < 2 * n
                    &&& e == Error::Truncated
                    &&& final(self).unread() == old(self).unread()
                },
            },
    ;

    /// Reads the next `n` bytes verbatim.
    fn read_bytes(&mut self, n: usize) -> (r: Result<Vec<u8>, Error>)
        ensures
            match r {
                Ok(v) => {
                    &&& old(self).unread().len() >= n
                    &&& v@ == old(self).unread().take(n as int)
                    &&& final(self).unread() == old(self).unread().skip(n as int)
                },
                Err(e) => {
                    &&& old(self).unread().len() < n
                    &&& e == Error::Truncated
                    &&& final(self).unread() == old(self).unread()
                },
            },
    ;
}

/// A reader over an in-memory byte slice.
pub struct MemReader<'a> {
    data: &'a [u8],
    pos: usize,
}

impl<'a> MemReader<'a> {
    #[verifier::type_invariant]
    spec fn position_in_bounds(self) -> bool {
        self.pos <= self.data@.len()
    }

    /// The bytes this reader reads from.
    pub closed spec fn source(&self) -> Seq<u8> {
        self.data@
    }

    /// A reader positioned at the first byte of `data`.
    pub fn new(data: &'a [u8]) -> (r: MemReader<'a>)
        ensures
            r.unread() == data@,
            r.source() == data@,
    {
        let r = MemReader { data, pos: 0 };
        assert(data@.subrange(0, data@.len() as int) =~= data@);
        r
    }

    /// How many bytes have been consumed so far: what is left unread is the
    /// source from this position on.
    pub fn position(&self) -> (p: usize)
        ensures
            p <= self.source().len(),
            self.unread() == self.source().skip(p as int),
    {
        proof {
            use_type_invariant(self);
        }
        self.pos
    }
}

impl<'a> ProfileReader for MemReader<'a> {
    closed spec fn unread(&self) -> Seq<u8> {
        self.data@.subrange(self.pos as int, self.data@.len() as int)
    }

    fn read_u16(&mut self) -> (r: Result<u16, Error>) {
        proof {
            use_type_invariant(&*self);
        }
        if self.data.len() - self.pos < 2 {
            return Err(Error::Truncated);
        }
        let p = self.pos;
        let v: u16 = (self.data[p] as u16) * 0x100 + self.data[p + 1] as u16;
        self.pos = p + 2;
        assert(self.unread() =~= old(self).unread().skip(2));
        Ok(v)
    }

    fn read_u32(&mut self) -> (r: Result<u32, Error>) {
        proof {
            use_type_invariant(&*self);
        }
        if self.data.len() - self.pos < 4 {
            return Err(Error::Truncated);
        }
        let p = self.pos;
        let v: u32 = (self.data[p] as u32) * 0x100_0000 + (self.data[p + 1] as u32) * 0x1_0000
            + (self.data[p + 2] as u32) * 0x100 + self.data[p + 3] as u32;
        self.pos = p + 4;
        assert(self.unread() =~= old(self).unread().skip(4));
        Ok(v)
    }

    fn read_s15f16(&mut self) -> (r: Result<i32, Error>) {
        let u = self.read_u32()?;
        if u < 0x8000_0000 {
            Ok(u as i32)
        } else {
            Ok(((u - 0x8000_0000) as i32) + i32::MIN)
        }
    }

    fn read_u16_array(&mut self, n: usize) -> (r: Result<Vec<u16>, Error>) {
        proof {
            use_type_invariant(&*self);
        }
        if n > (self.data.len() - self.pos) / 2 {
            return Err(Error::Truncated);
        }
        let ghost start = old(self).unread();
        let mut v: Vec<u16> = Vec::new();
        let mut k: usize = 0;
        while k < n
            invariant
                self.pos <= self.data@.len(),
                start == old(self).unread(),
                start.len() >= 2 * n,
                k <= n,
                v@.len() == k,
                forall|j: int| 0 <= j < k ==> #[trigger] v@[j] == be16(start, 2 * j),
                self.data@ == old(self).data@,
                self.pos == old(self).pos + 2 * k,
            decreases n - k,
        {
            let p = self.pos;
            let x: u16 = (self.data[p] as u16) * 0x100 + self.data[p + 1] as u16;
            assert(start[2 * k as int] == self.data@[p as int]);
            assert(start[2 * k + 1] == self.data@[p + 1]);
            v.push(x);
            self.pos = p + 2;
            k = k + 1;
        }
        assert(self.unread() =~= start.skip(2 * n));
        Ok(v)
    }

    fn read_bytes(&mut self, n: usize) -> (r: Result<Vec<u8>, Error>) {
        proof {
            use_type_invariant(&*self);
        }
        if n > self.data.len() - self.pos {
            return Err(Error::Truncated);
        }
        let ghost start = old(self).unread();
        let mut v: Vec<u8> = Vec::new();
        let mut k: usize = 0;
        while k < n
            invariant
                self.pos <= self.data@.len(),
                start == old(self).unread(),
                start.len() >= n,
                k <= n,
                v@ == start.take(k as int),
                self.data@ == old(self).data@,
                self.pos == old(self).pos + k,
            decreases n - k,
        {
            let p = self.pos;
            let x = self.data[p];
            assert(start[k as int] == x);
            v.push(x);
            self.pos = p + 1;
            k = k + 1;
            assert(v@ =~= start.take(k as int));
        }
        assert(self.unread() =~= start.skip(n as int));
        Ok(v)
    }
}

} // verus!
