//! ICC fixed-point numbers, kept as their raw encodings.
use vstd::prelude::*;

verus! {

/// An unsigned 8.8 fixed-point number: the value is `raw / 256`.
#[derive(Debug, Clone, Copy, PartialEq, Eq, Hash, Structural)]
pub struct U8Fixed8(pub u16);

/// A signed 15.16 fixed-point number: the value is `raw / 65536`.
#[derive(Debug, Clone, Copy, PartialEq, Eq, Hash, Structural)]
pub struct S15Fixed16(pub i32);

impl U8Fixed8 {
    /// The number whose encoding is `raw`.
    pub fn from_raw(raw: u16) -> (f: U8Fixed8)
        ensures
            f.0 == raw,
    {
        U8Fixed8(raw)
    }

    /// The encoding of this number.
    pub fn to_raw(&self) -> (raw: u16)
        ensures
            raw == self.0,
    {
        self.0
    }
}

impl S15Fixed16 {
    /// The number whose encoding is `raw`.
    pub fn from_raw(raw: i32) -> (f: S15Fixed16)
        ensures
            f.0 == raw,
    {
        S15Fixed16(raw)
    }

    /// The encoding of this number.
    pub fn to_raw(&self) -> (raw: i32)
        ensures
            raw == self.0,
    {
        self.0
    }
}

} // verus!
