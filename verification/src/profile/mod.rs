//! ICC profile parsing. The 128-byte header (`header`) and the tag directory
//! (`directory`) compose into `Profile`; `types` holds the tag-type readers.

pub mod directory;
pub mod header;
pub mod tag;
pub mod types;

pub use directory::TagEntry;
pub use header::{ColorSpace, DateTime, Header, ProfileClass, RenderingIntent};

use vstd::prelude::*;

use crate::error::Error;
use crate::io::{be32, MemReader};
use crate::sig::Signature;
use directory::{directory_result, entry_kept, lemma_directory_sound, parse_directory};
use header::{header_check, header_decodes};

verus! {

/// Tag data must end within the first `tag_limit(bytes)` bytes: the smaller of
/// the size the header claims and the number of bytes actually present.
pub open spec fn tag_limit(bytes: Seq<u8>) -> int {
    if be32(bytes, 0) < bytes.len() {
        be32(bytes, 0)
    } else {
        bytes.len() as int
    }
}

/// What opening the bytes `bytes` gives: the first header failure, the first
/// directory failure, or the accepted tag directory.
pub open spec fn open_result(bytes: Seq<u8>) -> Result<Seq<TagEntry>, Error> {
    match header_check(bytes) {
        Err(e) => Err(e),
        Ok(_) => directory_result(bytes.skip(128), tag_limit(bytes)),
    }
}

/// The signatures of `d`, in order.
pub open spec fn tag_names(d: Seq<TagEntry>) -> Seq<Signature> {
    d.map_values(|e: TagEntry| e.sig)
}

/// What a `Profile` stands for: its bytes, its header, its accepted directory.
pub struct ProfileView {
    pub bytes: Seq<u8>,
    pub header: Header,
    pub tags: Seq<TagEntry>,
}

/// A parsed ICC profile: the validated header plus the accepted tag directory.
/// Borrows the source bytes so tag data can be decoded later without copying.
pub struct Profile<'a> {
    bytes: &'a [u8],
    header: Header,
    dir: Vec<TagEntry>,
}

impl<'a> View for Profile<'a> {
    type V = ProfileView;

    closed spec fn view(&self) -> ProfileView {
        ProfileView { bytes: self.bytes@, header: self.header, tags: self.dir@ }
    }
}

impl<'a> Profile<'a> {
    #[verifier::type_invariant]
    spec fn decoded_from_bytes(self) -> bool {
        &&& header_check(self.bytes@) is Ok
        &&& header_decodes(self.header, self.bytes@)
        &&& open_result(self.bytes@) == Ok::<Seq<TagEntry>, Error>(self.dir@)
    }

    /// Opens a profile from its raw bytes: the header is read and validated,
    /// then the tag directory that follows it. Fails with the first header
    /// error (truncation, bad magic, version, device class) or the first
    /// directory error (truncation, too many tags, duplicate signature).
    pub fn open(bytes: &'a [u8]) -> (res: Result<Profile<'a>, Error>)
        ensures
            match res {
                Ok(p) => {
                    &&& p@.bytes == bytes@
                    &&& header_check(bytes@) is Ok
                    &&& header_decodes(p@.header, bytes@)
                    &&& open_result(bytes@) == Ok::<Seq<TagEntry>, Error>(p@.tags)
                },
                Err(e) => open_result(bytes@) == Err::<Seq<TagEntry>, Error>(e),
            },
    {
        let mut r = MemReader::new(bytes);
        let header = match Header::parse(&mut r) {
            Ok(h) => h,
            Err(e) => {
                return Err(e);
            },
        };
        let dir = match parse_directory(&mut r, header.size, bytes.len()) {
            Ok(d) => d,
            Err(e) => {
                return Err(e);
            },
        };
        Ok(Profile { bytes, header, dir })
    }

    /// The profile's raw bytes (the slice `open` borrowed).
    pub fn bytes(&self) -> (b: &'a [u8])
        ensures
            b@ == self@.bytes,
    {
        self.bytes
    }

    /// The validated 128-byte header.
    pub fn header(&self) -> (h: &Header)
        ensures
            *h == self@.header,
            header_decodes(*h, self@.bytes),
    {
        proof {
            use_type_invariant(self);
        }
        &self.header
    }

    /// The accepted tag signatures, in directory order; no signature occurs
    /// twice.
    pub fn tags(&self) -> (t: Vec<Signature>)
        ensures
            t@ == tag_names(self@.tags),
            forall|i: int, j: int| 0 <= i < j < t@.len() ==> t@[i] != t@[j],
    {
        proof {
            use_type_invariant(self);
            lemma_directory_sound(self.bytes@.skip(128), tag_limit(self.bytes@));
        }
        let mut t: Vec<Signature> = Vec::new();
        let n = self.dir.len();
        let mut i: usize = 0;
        while i < n
            invariant
                n == self.dir@.len(),
                i <= n,
                t@ == tag_names(self.dir@.take(i as int)),
            decreases n - i,
        {
            t.push(self.dir[i].sig);
            i = i + 1;
            assert(tag_names(self.dir@.take(i as int)) =~= tag_names(
                self.dir@.take((i - 1) as int),
            ).push(self.dir@[i - 1].sig));
        }
        assert(self.dir@.take(n as int) =~= self.dir@);
        t
    }

    /// Whether the profile carries a tag with the given signature.
    pub fn has_tag(&self, sig: Signature) -> (b: bool)
        ensures
            b == tag_names(self@.tags).contains(sig),
    {
        let n = self.dir.len();
        let mut i: usize = 0;
        while i < n
            invariant
                n == self.dir@.len(),
                i <= n,
                forall|k: int| 0 <= k < i ==> self.dir@[k].sig != sig,
            decreases n - i,
        {
            if self.dir[i].sig.0 == sig.0 {
                assert(tag_names(self.dir@)[i as int] == sig);
                return true;
            }
            i = i + 1;
        }
        assert(!tag_names(self.dir@).contains(sig)) by {
            assert forall|k: int| 0 <= k < tag_names(self.dir@).len() implies tag_names(
                self.dir@,
            )[k] != sig by {}
        }
        false
    }

    /// The first directory entry for `sig`, if there is one.
    pub fn tag_entry(&self, sig: Signature) -> (e: Option<&TagEntry>)
        ensures
            match e {
                Some(t) => exists|i: int|
                    #![trigger self@.tags[i]]
                    0 <= i < self@.tags.len() && self@.tags[i] == *t && t.sig == sig && forall|
                        j: int,
                    |
                        0 <= j < i ==> self@.tags[j].sig != sig,
                None => forall|i: int| 0 <= i < self@.tags.len() ==> self@.tags[i].sig != sig,
            },
            e matches Some(t) ==> t.offset > 0 && t.size > 0 && t.offset + t.size
                <= self@.bytes.len(),
    {
        let n = self.dir.len();
        let mut i: usize = 0;
        while i < n
            invariant
                n == self.dir@.len(),
                i <= n,
                forall|k: int| 0 <= k < i ==> self.dir@[k].sig != sig,
            decreases n - i,
        {
            if self.dir[i].sig.0 == sig.0 {
                proof {
                    use_type_invariant(self);
                    lemma_open_sound(self.bytes@);
                    assert(self@.tags[i as int] == self.dir@[i as int]);
                }
                return Some(&self.dir[i]);
            }
            i = i + 1;
        }
        None
    }
}

/// A profile that opens has at most `MAX_TABLE_TAG` tags, each with non-zero
/// offset and size and with its data inside the profile, and no signature
/// occurs twice among them.
pub proof fn lemma_open_sound(bytes: Seq<u8>)
    requires
        open_result(bytes) is Ok,
    ensures
        ({
            let d = open_result(bytes)->Ok_0;
            &&& d.len() <= directory::MAX_TABLE_TAG
            &&& forall|k: int|
                0 <= k < d.len() ==> #[trigger] d[k].offset > 0 && d[k].size > 0 && d[k].offset
                    + d[k].size <= bytes.len()
            &&& forall|i: int, j: int|
                0 <= i < j < d.len() ==> #[trigger] d[i].sig != #[trigger] d[j].sig
        }),
{
    lemma_directory_sound(bytes.skip(128), tag_limit(bytes));
    let d = open_result(bytes)->Ok_0;
    assert forall|k: int| 0 <= k < d.len() implies #[trigger] d[k].offset > 0 && d[k].size > 0
        && d[k].offset + d[k].size <= bytes.len() by {
        assert(entry_kept(d[k], tag_limit(bytes)));
    }
}

/// Asking whether a tag is present and looking its entry up agree: a
/// signature is among the tag names exactly when some entry carries it.
pub proof fn lemma_lookup_agrees(d: Seq<TagEntry>, sig: Signature)
    ensures
        tag_names(d).contains(sig) <==> exists|i: int|
            0 <= i < d.len() && #[trigger] d[i].sig == sig,
{
    if tag_names(d).contains(sig) {
        let k = choose|k: int| 0 <= k < tag_names(d).len() && tag_names(d)[k] == sig;
        assert(d[k].sig == sig);
    }
    if exists|i: int| 0 <= i < d.len() && #[trigger] d[i].sig == sig {
        let i = choose|i: int| 0 <= i < d.len() && #[trigger] d[i].sig == sig;
        assert(tag_names(d)[i] == sig);
    }
}

} // verus!
