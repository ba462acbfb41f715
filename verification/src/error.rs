use vstd::prelude::*;

verus! {

/// Everything that can go wrong while decoding a profile or planning a link.
#[derive(Debug, Clone, Copy, PartialEq, Eq)]
pub enum Error {
    /// The input ended before the structure being read was complete.
    Truncated,
    /// The header does not carry the `acsp` magic number.
    BadSignature,
    /// The (validated) header version is newer than 5.0.
    UnsupportedVersion(u32),
    /// The header names a device class that is not one of the ICC classes.
    UnsupportedClass(u32),
    /// A count is outside the range the format allows.
    Range,
    /// Two accepted tag-directory entries carry the same signature.
    DuplicateTag,
    /// The data is structurally invalid.
    Corrupt(&'static str),
    /// A valid request that this engine does not implement.
    Unsupported(&'static str),
}

} // verus!
