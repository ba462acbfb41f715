use vstd::prelude::*;

verus! {

/// A four-byte ICC signature (tag names, type names, colour spaces...).
#[derive(Debug, Clone, Copy, PartialEq, Eq, Hash, Structural)]
pub struct Signature(pub u32);

impl Signature {
    /// The signature whose big-endian encoding is `raw`.
    pub fn from_raw(raw: u32) -> (s: Signature)
        ensures
            s.0 == raw,
    {
        Signature(raw)
    }

    /// The signature as a big-endian `u32`.
    pub fn to_raw(&self) -> (raw: u32)
        ensures
            raw == self.0,
    {
        self.0
    }
}

} // verus!
