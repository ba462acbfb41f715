//! The tag directory that follows the header.
use vstd::prelude::*;

use crate::error::Error;
use crate::io::{be32, ProfileReader};
use crate::sig::Signature;

verus! {

/// One accepted entry of the tag directory.
#[derive(Debug, Clone, Copy, PartialEq, Eq, Hash, Structural)]
pub struct TagEntry {
    pub sig: Signature,
    /// Offset of the tag data from the start of the profile.
    pub offset: u32,
    /// Size of the tag data in bytes.
    pub size: u32,
}

/// The most entries a directory may declare.
pub const MAX_TABLE_TAG: u32 = 100;

/// The `k`-th raw entry of the directory whose bytes (count first) are `s`.
pub open spec fn raw_entry(s: Seq<u8>, k: int) -> TagEntry {
    TagEntry {
        sig: Signature(be32(s, 4 + 12 * k) as u32),
        offset: be32(s, 8 + 12 * k) as u32,
        size: be32(s, 12 + 12 * k) as u32,
    }
}

/// An entry is kept when it is non-empty, has a non-zero offset, and its data
/// ends within the first `limit` bytes of the profile.
pub open spec fn entry_kept(e: TagEntry, limit: int) -> bool {
    e.size != 0 && e.offset != 0 && e.offset + e.size <= limit
}

/// The kept entries among the first `n` raw entries, in directory order.
pub open spec fn kept_entries(s: Seq<u8>, limit: int, n: nat) -> Seq<TagEntry>
    decreases n,
{
    if n == 0 {
        Seq::empty()
    } else {
        let prev = kept_entries(s, limit, (n - 1) as nat);
        let e = raw_entry(s, n - 1);
        if entry_kept(e, limit) {
            prev.push(e)
        } else {
            prev
        }
    }
}

/// Two distinct positions of `d` carry the same signature.
pub open spec fn has_duplicate_sig(d: Seq<TagEntry>) -> bool {
    exists|i: int, j: int| 0 <= i < j < d.len() && #[trigger] d[i].sig == #[trigger] d[j].sig
}

/// What reading the directory from the bytes `s` gives, when tag data must end
/// within the first `limit` bytes of the profile.
pub open spec fn directory_result(s: Seq<u8>, limit: int) -> Result<Seq<TagEntry>, Error> {
    if s.len() < 4 {
        Err(Error::Truncated)
    } else if be32(s, 0) > MAX_TABLE_TAG {
        Err(Error::Range)
    } else if s.len() < 4 + 12 * be32(s, 0) {
        Err(Error::Truncated)
    } else if has_duplicate_sig(kept_entries(s, limit, be32(s, 0) as nat)) {
        Err(Error::DuplicateTag)
    } else {
        Ok(kept_entries(s, limit, be32(s, 0) as nat))
    }
}

/// How many bytes reading the directory from `s` consumes, whether it
/// succeeds or not: whole fields up to the first one that is cut short.
pub open spec fn directory_consumed(s: Seq<u8>) -> int {
    if s.len() < 4 {
        0
    } else if be32(s, 0) > MAX_TABLE_TAG {
        4
    } else if s.len() < 4 + 12 * be32(s, 0) {
        4 + 4 * ((s.len() - 4) / 4)
    } else {
        4 + 12 * be32(s, 0)
    }
}

proof fn lemma_kept_entries_bounded(s: Seq<u8>, limit: int, n: nat)
    ensures
        kept_entries(s, limit, n).len() <= n,
        forall|k: int|
            0 <= k < kept_entries(s, limit, n).len() ==> entry_kept(
                #[trigger] kept_entries(s, limit, n)[k],
                limit,
            ),
    decreases n,
{
    if n > 0 {
        lemma_kept_entries_bounded(s, limit, (n - 1) as nat);
    }
}

/// Every entry of an accepted directory is kept (non-empty, inside the first
/// `limit` bytes), there are at most `MAX_TABLE_TAG` of them, and no two carry
/// the same signature.
pub proof fn lemma_directory_sound(s: Seq<u8>, limit: int)
    requires
        directory_result(s, limit) is Ok,
    ensures
        ({
            let d = directory_result(s, limit)->Ok_0;
            &&& d.len() <= MAX_TABLE_TAG
            &&& forall|k: int| 0 <= k < d.len() ==> entry_kept(#[trigger] d[k], limit)
            &&& forall|i: int, j: int|
                0 <= i < j < d.len() ==> #[trigger] d[i].sig != #[trigger] d[j].sig
        }),
{
    lemma_kept_entries_bounded(s, limit, be32(s, 0) as nat);
}

/// Whether two positions of `d` carry the same signature.
fn find_duplicate(d: &Vec<TagEntry>) -> (dup: bool)
    ensures
        dup == has_duplicate_sig(d@),
{
    let n = d.len();
    let mut i: usize = 0;
    while i < n
        invariant
            n == d@.len(),
            i <= n,
            forall|a: int, b: int| 0 <= a < i && a < b < n ==> d@[a].sig != d@[b].sig,
        decreases n - i,
    {
        let mut j: usize = i + 1;
        while j < n
            invariant
                n == d@.len(),
                i < n,
                i + 1 <= j <= n,
                forall|a: int, b: int| 0 <= a < i && a < b < n ==> d@[a].sig != d@[b].sig,
                forall|b: int| i < b < j ==> d@[i as int].sig != d@[b].sig,
            decreases n - j,
        {
            if d[i].sig.0 == d[j].sig.0 {
                assert(d@[i as int].sig == d@[j as int].sig);
                return true;
            }
            j = j + 1;
        }
        i = i + 1;
    }
    assert(!has_duplicate_sig(d@)) by {
        assert forall|a: int, b: int| 0 <= a < b < d@.len() implies #[trigger] d@[a].sig
            != #[trigger] d@[b].sig by {}
    }
    false
}

/// Reads the tag directory: a `u32` count (at most `MAX_TABLE_TAG`), then
/// that many (signature, offset, size) triples. Entries that are empty, have a
/// zero offset, or whose data would end past `min(header_size, file_len)` are
/// skipped; an accepted directory must not name a signature twice.
pub fn parse_directory<R: ProfileReader>(r: &mut R, header_size: u32, file_len: usize) -> (res:
    Result<Vec<TagEntry>, Error>)
    ensures
        ({
            let limit = if header_size < file_len {
                header_size as int
            } else {
                file_len as int
            };
            match res {
                Ok(d) => directory_result(old(r).unread(), limit) == Ok::<Seq<TagEntry>, Error>(
                    d@,
                ),
                Err(e) => directory_result(old(r).unread(), limit) == Err::<Seq<TagEntry>, Error>(
                    e,
                ),
            }
        }),
        final(r).unread() == old(r).unread().skip(directory_consumed(old(r).unread())),
{
    let ghost s = r.unread();
    let limit: u64 = if (header_size as u64) < (file_len as u64) {
        header_size as u64
    } else {
        file_len as u64
    };
    let count = match r.read_u32() {
        Ok(c) => c,
        Err(e) => {
            return Err(e);
        },
    };
    if count > MAX_TABLE_TAG {
        return Err(Error::Range);
    }
    let mut dir: Vec<TagEntry> = Vec::new();
    let mut i: u32 = 0;
    while i < count
        invariant
            s == old(r).unread(),
            limit == (if header_size < file_len {
                header_size as int
            } else {
                file_len as int
            }),
            count == be32(s, 0),
            count <= MAX_TABLE_TAG,
            s.len() >= 4 + 12 * i,
            i <= count,
            r.unread() == s.skip(4 + 12 * i),
            dir@ == kept_entries(s, limit as int, i as nat),
        decreases count - i,
    {
        let ghost before = r.unread();
        let sig = match r.read_u32() {
            Ok(v) => v,
            Err(e) => {
                assert(s.len() < 4 + 12 * count);
                return Err(e);
            },
        };
        let offset = match r.read_u32() {
            Ok(v) => v,
            Err(e) => {
                assert(s.len() < 4 + 12 * count);
                return Err(e);
            },
        };
        let size = match r.read_u32() {
            Ok(v) => v,
            Err(e) => {
                assert(s.len() < 4 + 12 * count);
                return Err(e);
            },
        };
        assert(r.unread() =~= s.skip(4 + 12 * (i + 1)));
        let e = TagEntry { sig: Signature(sig), offset, size };
        assert(e == raw_entry(s, i as int));
        if size != 0 && offset != 0 && (offset as u64) + (size as u64) <= limit {
            dir.push(e);
        }
        i = i + 1;
    }
    if find_duplicate(&dir) {
        return Err(Error::DuplicateTag);
    }
    Ok(dir)
}

} // verus!
