//! Decoded tag values.
use vstd::prelude::*;

use crate::fixed::{S15Fixed16, U8Fixed8};

verus! {

/// A tone curve as the profile describes it, before any evaluation table is
/// built from it.
#[derive(Debug, PartialEq, Eq)]
pub enum CurveData {
    /// `y = x ^ gamma`, with the exponent stored as an 8.8 fixed-point number.
    Gamma(U8Fixed8),
    /// 16-bit samples, evenly spaced over the input range.
    Tabulated(Vec<u16>),
    /// A parametric function: `curve_type` numbers the function (1..=5) and
    /// `params` holds exactly its coefficients, in order.
    Parametric { curve_type: i32, params: Vec<S15Fixed16> },
}

/// What a `CurveData` stands for.
pub enum CurveView {
    Gamma(u16),
    Tabulated(Seq<u16>),
    Parametric { curve_type: int, params: Seq<int> },
}

impl View for CurveData {
    type V = CurveView;

    open spec fn view(&self) -> CurveView {
        match self {
            CurveData::Gamma(g) => CurveView::Gamma(g.0),
            CurveData::Tabulated(t) => CurveView::Tabulated(t@),
            CurveData::Parametric { curve_type, params } => CurveView::Parametric {
                curve_type: *curve_type as int,
                params: params@.map_values(|p: S15Fixed16| p.0 as int),
            },
        }
    }
}

/// A decoded tag value.
#[derive(Debug, PartialEq, Eq)]
pub enum Tag {
    /// A `curv` or `para` tag.
    Curve(CurveData),
}

/// What a `Tag` stands for.
pub enum TagView {
    Curve(CurveView),
}

impl View for Tag {
    type V = TagView;

    open spec fn view(&self) -> TagView {
        match self {
            Tag::Curve(c) => TagView::Curve(c@),
        }
    }
}

} // verus!
