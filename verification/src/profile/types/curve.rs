//! The tone-curve tag-type readers: `curv` and `para`. Each reader takes the
//! positioned reader `r` (already past the 8-byte type base) and `size`, the
//! byte count of the tag body, which these readers do not need.
use vstd::prelude::*;

use crate::error::Error;
use crate::fixed::{S15Fixed16, U8Fixed8};
use crate::io::{be16, be32, signed32, ProfileReader};
use crate::profile::tag::{CurveData, CurveView, Tag, TagView};

verus! {

/// The largest table a `curv` tag may declare.
pub const MAX_CURVE_ENTRIES: u32 = 0x7FFF;

/// The 8.8 encoding of the exponent 1.0.
pub const UNIT_GAMMA: u16 = 0x0100;

/// What reading a `curv` body from `s` gives: the tag and the number of bytes
/// read, or the failure.
pub open spec fn curve_result(s: Seq<u8>) -> Result<(TagView, int), Error> {
    if s.len() < 4 {
        Err(Error::Truncated)
    } else if be32(s, 0) == 0 {
        Ok((TagView::Curve(CurveView::Gamma(UNIT_GAMMA)), 4))
    } else if be32(s, 0) == 1 {
        if s.len() < 6 {
            Err(Error::Truncated)
        } else {
            Ok((TagView::Curve(CurveView::Gamma(be16(s, 4) as u16)), 6))
        }
    } else if be32(s, 0) > MAX_CURVE_ENTRIES {
        Err(Error::Corrupt("curve entry count exceeds 0x7FFF"))
    } else if s.len() < 4 + 2 * be32(s, 0) {
        Err(Error::Truncated)
    } else {
        Ok(
            (
                TagView::Curve(
                    CurveView::Tabulated(
                        Seq::new(be32(s, 0) as nat, |k: int| be16(s, 4 + 2 * k) as u16),
                    ),
                ),
                4 + 2 * be32(s, 0),
            ),
        )
    }
}

/// How many bytes reading a `curv` body from `s` consumes, whether it succeeds
/// or not: a failed read of a field consumes nothing of that field.
pub open spec fn curve_consumed(s: Seq<u8>) -> int {
    if s.len() < 4 {
        0
    } else if be32(s, 0) == 0 {
        4
    } else if be32(s, 0) == 1 {
        if s.len() < 6 {
            4
        } else {
            6
        }
    } else if be32(s, 0) > MAX_CURVE_ENTRIES || s.len() < 4 + 2 * be32(s, 0) {
        4
    } else {
        4 + 2 * be32(s, 0)
    }
}

/// What a `curv` body holds: a zero count is the exponent 1.0 (256 in 8.8),
/// a count of one is the stored 8.8 exponent, a count from 2 to 0x7FFF is a
/// table of exactly that many stored samples, and a larger count is corrupt;
/// a successful read consumes the count and what it announces.
pub proof fn lemma_curve_contents(s: Seq<u8>)
    ensures
        (s.len() >= 4 && be32(s, 0) == 0) ==> curve_result(s) == Ok::<(TagView, int), Error>(
            (TagView::Curve(CurveView::Gamma(256)), 4),
        ),
        (s.len() >= 6 && be32(s, 0) == 1) ==> curve_result(s) == Ok::<(TagView, int), Error>(
            (TagView::Curve(CurveView::Gamma((s[4] as int * 256 + s[5] as int) as u16)), 6),
        ),
        (s.len() >= 4 && be32(s, 0) > 0x7FFF) ==> curve_result(s) matches Err(Error::Corrupt(_)),
        (s.len() >= 4 && 2 <= be32(s, 0) <= 0x7FFF && s.len() >= 4 + 2 * be32(s, 0)) ==> (
        curve_result(s) matches Ok((TagView::Curve(CurveView::Tabulated(t)), n)) && t.len()
            == be32(s, 0) && n == 4 + 2 * be32(s, 0) && forall|k: int|
            0 <= k < t.len() ==> #[trigger] t[k] == s[4 + 2 * k] as int * 256 + s[5 + 2 * k] as int),
        curve_result(s) matches Ok((_, n)) ==> n == curve_consumed(s),
{
}

/// Reads a `curv` body: a `u32` entry count, then
/// - count 0: the identity curve, an exponent of exactly 1.0;
/// - count 1: one exponent as an 8.8 fixed-point number;
/// - count 2..=0x7FFF: a table of that many big-endian `u16` samples;
/// - a larger count is rejected as corrupt.
pub fn read_curve<R: ProfileReader>(r: &mut R, _size: u32) -> (res: Result<Tag, Error>)
    ensures
        match res {
            Ok(t) => curve_result(old(r).unread()) == Ok::<(TagView, int), Error>(
                (t@, curve_consumed(old(r).unread())),
            ),
            Err(e) => curve_result(old(r).unread()) == Err::<(TagView, int), Error>(e),
        },
        final(r).unread() == old(r).unread().skip(curve_consumed(old(r).unread())),
{
    let ghost s = r.unread();
    let count = match r.read_u32() {
        Ok(c) => c,
        Err(e) => {
            return Err(e);
        },
    };
    if count == 0 {
        let t = Tag::Curve(CurveData::Gamma(U8Fixed8(UNIT_GAMMA)));
        assert(curve_result(s) == Ok::<(TagView, int), Error>((t@, 4)));
        Ok(t)
    } else if count == 1 {
        let g = match r.read_u16() {
            Ok(g) => g,
            Err(e) => {
                return Err(e);
            },
        };
        assert(be16(s.skip(4), 0) == be16(s, 4));
        assert(r.unread() =~= s.skip(6));
        let t = Tag::Curve(CurveData::Gamma(U8Fixed8::from_raw(g)));
        assert(curve_result(s) == Ok::<(TagView, int), Error>((t@, 6)));
        Ok(t)
    } else {
        if count > MAX_CURVE_ENTRIES {
            return Err(Error::Corrupt("curve entry count exceeds 0x7FFF"));
        }
        let table = match r.read_u16_array(count as usize) {
            Ok(t) => t,
            Err(e) => {
                return Err(e);
            },
        };
        let ghost rest = s.skip(4);
        assert(r.unread() =~= s.skip(4 + 2 * count));
        let t = Tag::Curve(CurveData::Tabulated(table));
        assert(t@ == TagView::Curve(
            CurveView::Tabulated(Seq::new(count as nat, |k: int| be16(s, 4 + 2 * k) as u16)),
        )) by {
            assert forall|k: int| 0 <= k < count implies table@[k] == be16(s, 4 + 2 * k) by {
                assert(table@[k] == be16(rest, 2 * k));
            }
            assert(table@ =~= Seq::new(count as nat, |k: int| be16(s, 4 + 2 * k) as u16));
        }
        Ok(t)
    }
}

/// The number of coefficients of each ICC parametric function type 0..=4.
pub open spec fn param_count(icc_type: int) -> int {
    if icc_type == 0 {
        1
    } else if icc_type == 1 {
        3
    } else if icc_type == 2 {
        4
    } else if icc_type == 3 {
        5
    } else {
        7
    }
}

/// What reading a `para` body from `s` gives: the tag and the number of bytes
/// read, or the failure. The function number is the ICC type plus one.
pub open spec fn parametric_result(s: Seq<u8>) -> Result<(TagView, int), Error> {
    if s.len() < 4 {
        Err(Error::Truncated)
    } else if be16(s, 0) > 4 {
        Err(Error::Corrupt("unknown parametric curve type"))
    } else if s.len() < 4 + 4 * param_count(be16(s, 0)) {
        Err(Error::Truncated)
    } else {
        Ok(
            (
                TagView::Curve(
                    CurveView::Parametric {
                        curve_type: be16(s, 0) + 1,
                        params: Seq::new(
                            param_count(be16(s, 0)) as nat,
                            |k: int| signed32(be32(s, 4 + 4 * k)),
                        ),
                    },
                ),
                4 + 4 * param_count(be16(s, 0)),
            ),
        )
    }
}

/// How many bytes reading a `para` body from `s` consumes, whether it succeeds
/// or not: the fields read in full before a failure, and nothing of the field
/// that failed.
pub open spec fn parametric_consumed(s: Seq<u8>) -> int {
    if s.len() < 2 {
        0
    } else if s.len() < 4 {
        2
    } else if be16(s, 0) > 4 {
        4
    } else if s.len() >= 4 + 4 * param_count(be16(s, 0)) {
        4 + 4 * param_count(be16(s, 0))
    } else {
        4 + 4 * ((s.len() - 4) / 4)
    }
}

/// How many coefficients each ICC parametric type carries, and what is read:
/// types 0, 1, 2, 3 and 4 carry 1, 3, 4, 5 and 7 coefficients, the function
/// number is the type plus one, every coefficient is the signed 15.16 number
/// stored after the two header fields in order, and the whole body is
/// consumed; a shorter body is truncated and a type above 4 is corrupt.
pub proof fn lemma_parametric_coefficients(s: Seq<u8>)
    ensures
        (be16(s, 0) == 0 && s.len() >= 8) ==> (parametric_result(s) matches Ok(
            (TagView::Curve(CurveView::Parametric { curve_type, params }), n),
        ) && curve_type == 1 && params.len() == 1 && n == 8 && parametric_consumed(s) == 8),
        (be16(s, 0) == 1 && s.len() >= 16) ==> (parametric_result(s) matches Ok(
            (TagView::Curve(CurveView::Parametric { curve_type, params }), n),
        ) && curve_type == 2 && params.len() == 3 && n == 16 && parametric_consumed(s) == 16),
        (be16(s, 0) == 2 && s.len() >= 20) ==> (parametric_result(s) matches Ok(
            (TagView::Curve(CurveView::Parametric { curve_type, params }), n),
        ) && curve_type == 3 && params.len() == 4 && n == 20 && parametric_consumed(s) == 20),
        (be16(s, 0) == 3 && s.len() >= 24) ==> (parametric_result(s) matches Ok(
            (TagView::Curve(CurveView::Parametric { curve_type, params }), n),
        ) && curve_type == 4 && params.len() == 5 && n == 24 && parametric_consumed(s) == 24),
        (be16(s, 0) == 4 && s.len() >= 32) ==> (parametric_result(s) matches Ok(
            (TagView::Curve(CurveView::Parametric { curve_type, params }), n),
        ) && curve_type == 5 && params.len() == 7 && n == 32 && parametric_consumed(s) == 32),
        parametric_result(s) matches Ok(
            (TagView::Curve(CurveView::Parametric { curve_type, params }), n),
        ) ==> n == 4 + 4 * params.len() && n == parametric_consumed(s) && 1 <= curve_type <= 5
            && forall|j: int| 0 <= j < params.len() ==> #[trigger] params[j] == signed32(
            be32(s, 4 + 4 * j),
        ),
        (s.len() >= 4 && be16(s, 0) > 4) ==> parametric_result(s) matches Err(Error::Corrupt(_)),
        (s.len() >= 4 && be16(s, 0) <= 4 && parametric_result(s) is Err) ==> parametric_result(s)
            == Err::<(TagView, int), Error>(Error::Truncated),
{
}

fn params_by_type(icc_type: u16) -> (n: usize)
    requires
        icc_type <= 4,
    ensures
        n == param_count(icc_type as int),
{
    if icc_type == 0 {
        1
    } else if icc_type == 1 {
        3
    } else if icc_type == 2 {
        4
    } else if icc_type == 3 {
        5
    } else {
        7
    }
}

/// Reads a `para` body: the ICC function type (`u16`), a reserved `u16`, then
/// as many s15Fixed16 coefficients as that type takes (1, 3, 4, 5 or 7 for
/// types 0..=4). Types above 4 are rejected as corrupt.
pub fn read_parametric_curve<R: ProfileReader>(r: &mut R, _size: u32) -> (res: Result<
    Tag,
    Error,
>)
    ensures
        match res {
            Ok(t) => parametric_result(old(r).unread()) == Ok::<(TagView, int), Error>(
                (t@, parametric_consumed(old(r).unread())),
            ),
            Err(e) => parametric_result(old(r).unread()) == Err::<(TagView, int), Error>(e),
        },
        final(r).unread() == old(r).unread().skip(parametric_consumed(old(r).unread())),
{
    let ghost s = r.unread();
    let icc_type = match r.read_u16() {
        Ok(v) => v,
        Err(e) => {
            return Err(e);
        },
    };
    let _reserved = match r.read_u16() {
        Ok(v) => v,
        Err(e) => {
            assert(s.len() < 4);
            return Err(e);
        },
    };
    assert(r.unread() =~= s.skip(4));
    if icc_type > 4 {
        return Err(Error::Corrupt("unknown parametric curve type"));
    }
    let n = params_by_type(icc_type);
    let mut params: Vec<S15Fixed16> = Vec::new();
    let mut k: usize = 0;
    while k < n
        invariant
            s == old(r).unread(),
            s.len() >= 4,
            icc_type == be16(s, 0),
            icc_type <= 4,
            n == param_count(icc_type as int),
            n <= 7,
            k <= n,
            s.len() >= 4 + 4 * k,
            r.unread() == s.skip(4 + 4 * k),
            params@.len() == k,
            forall|j: int| 0 <= j < k ==> #[trigger] params@[j].0 == signed32(be32(s, 4 + 4 * j)),
        decreases n - k,
    {
        let v = match r.read_s15f16() {
            Ok(v) => v,
            Err(e) => {
                assert(s.len() < 4 + 4 * param_count(be16(s, 0)));
                return Err(e);
            },
        };
        assert(be32(s.skip(4 + 4 * k), 0) == be32(s, 4 + 4 * k));
        assert(r.unread() =~= s.skip(4 + 4 * (k + 1)));
        params.push(S15Fixed16::from_raw(v));
        k = k + 1;
    }
    let t = Tag::Curve(CurveData::Parametric { curve_type: icc_type as i32 + 1, params });
    assert(t@ == TagView::Curve(
        CurveView::Parametric {
            curve_type: be16(s, 0) + 1,
            params: Seq::new(n as nat, |j: int| signed32(be32(s, 4 + 4 * j))),
        },
    )) by {
        assert(params@.map_values(|p: S15Fixed16| p.0 as int) =~= Seq::new(
            n as nat,
            |j: int| signed32(be32(s, 4 + 4 * j)),
        ));
    }
    Ok(t)
}

} // verus!
