//! The decisions of the intent-driven profile-link chain: the black-point
//! compensation adjustment made before linking, which PCS-adaptation stages a
//! junction needs, which conversion a junction may use, and how each profile
//! of the chain is read and connected.
use vstd::prelude::*;

use crate::error::Error;
use crate::profile::{ColorSpace, Profile, ProfileClass, RenderingIntent};

verus! {

/// Encoded versions at or above this are version 4 profiles.
pub const ICC_VERSION_V4: u32 = 0x0400_0000;

/// The black-point compensation flag of one link after the adjustment: forced
/// off for absolute colorimetric, forced on for perceptual and saturation when
/// the profile is version 4, otherwise left as requested.
pub open spec fn bpc_after(intent: RenderingIntent, version: u32, requested: bool) -> bool {
    match intent {
        RenderingIntent::AbsoluteColorimetric => false,
        RenderingIntent::Perceptual | RenderingIntent::Saturation => if version >= ICC_VERSION_V4 {
            true
        } else {
            requested
        },
        RenderingIntent::RelativeColorimetric => requested,
    }
}

/// Adjusts the per-link black-point compensation flags before a chain is
/// built: for each link `i` (one per profile), absolute colorimetric turns
/// `bpc[i]` off, and perceptual or saturation turns it on when `profiles[i]`
/// is a version 4 profile. Flags past the last profile are left alone.
pub fn link_bpc_mutation(intents: &[RenderingIntent], profiles: &[&Profile], bpc: &mut [bool])
    requires
        intents@.len() >= profiles@.len(),
        old(bpc)@.len() >= profiles@.len(),
    ensures
        final(bpc)@.len() == old(bpc)@.len(),
        forall|i: int|
            0 <= i < profiles@.len() ==> #[trigger] final(bpc)@[i] == bpc_after(
                intents@[i],
                profiles@[i]@.header.version,
                old(bpc)@[i],
            ),
        forall|i: int| profiles@.len() <= i < old(bpc)@.len() ==> #[trigger] final(bpc)@[i] == old(
            bpc,
        )@[i],
{
    let n = profiles.len();
    let mut i: usize = 0;
    while i < n
        invariant
            n == profiles@.len(),
            intents@.len() >= n,
            old(bpc)@.len() >= n,
            bpc@.len() == old(bpc)@.len(),
            i <= n,
            forall|k: int|
                0 <= k < i ==> #[trigger] bpc@[k] == bpc_after(
                    intents@[k],
                    profiles@[k]@.header.version,
                    old(bpc)@[k],
                ),
            forall|k: int| i <= k < bpc@.len() ==> #[trigger] bpc@[k] == old(bpc)@[k],
        decreases n - i,
    {
        let intent = intents[i];
        if intent == RenderingIntent::AbsoluteColorimetric {
            bpc[i] = false;
        }
        if intent == RenderingIntent::Perceptual || intent == RenderingIntent::Saturation {
            if profiles[i].header().version >= ICC_VERSION_V4 {
                bpc[i] = true;
            }
        }
        i = i + 1;
    }
}

/// What the adjustment does to each flag: absolute colorimetric always ends
/// with compensation off; perceptual and saturation end with it on for a
/// version 4 (or later) profile and keep the request for an older one;
/// relative colorimetric keeps the request whatever the version.
pub proof fn lemma_bpc_rules(intent: RenderingIntent, version: u32, requested: bool)
    ensures
        intent == RenderingIntent::AbsoluteColorimetric ==> !bpc_after(intent, version, requested),
        intent == RenderingIntent::RelativeColorimetric ==> bpc_after(intent, version, requested)
            == requested,
        (intent == RenderingIntent::Perceptual || intent == RenderingIntent::Saturation) && version
            >= 0x0400_0000 ==> bpc_after(intent, version, requested),
        (intent == RenderingIntent::Perceptual || intent == RenderingIntent::Saturation) && version
            < 0x0400_0000 ==> bpc_after(intent, version, requested) == requested,
        bpc_after(intent, version, requested) != requested ==> (intent
            == RenderingIntent::AbsoluteColorimetric && requested) || (intent
            != RenderingIntent::RelativeColorimetric && version >= 0x0400_0000 && !requested),
{
}

/// Adjusting the black-point compensation flag a second time changes nothing.
pub proof fn lemma_bpc_mutation_idempotent(intent: RenderingIntent, version: u32, requested: bool)
    ensures
        bpc_after(intent, version, bpc_after(intent, version, requested)) == bpc_after(
            intent,
            version,
            requested,
        ),
{
}

/// `a` and `b` may meet at a chain junction: the same space, CMYK and the
/// four-channel space standing in for it, or XYZ and Lab (each computable from
/// the other).
pub open spec fn compatible(a: ColorSpace, b: ColorSpace) -> bool {
    ||| a == b
    ||| (a == ColorSpace::Mch4 && b == ColorSpace::Cmyk)
    ||| (a == ColorSpace::Cmyk && b == ColorSpace::Mch4)
    ||| (a == ColorSpace::XYZ && b == ColorSpace::Lab)
    ||| (a == ColorSpace::Lab && b == ColorSpace::XYZ)
}

/// Whether `a` and `b` are interchangeable at a chain junction.
pub fn color_space_is_compatible(a: ColorSpace, b: ColorSpace) -> (r: bool)
    ensures
        r == compatible(a, b),
{
    if a == b {
        return true;
    }
    if a == ColorSpace::Mch4 && b == ColorSpace::Cmyk {
        return true;
    }
    if a == ColorSpace::Cmyk && b == ColorSpace::Mch4 {
        return true;
    }
    if a == ColorSpace::XYZ && b == ColorSpace::Lab {
        return true;
    }
    if a == ColorSpace::Lab && b == ColorSpace::XYZ {
        return true;
    }
    false
}

/// Junction compatibility is reflexive and symmetric.
pub proof fn lemma_compatible_reflexive_symmetric(a: ColorSpace, b: ColorSpace)
    ensures
        compatible(a, a),
        compatible(a, b) == compatible(b, a),
{
}

/// The device channel count of a colour space, or `None` when the space has
/// no fixed count.
pub open spec fn channels_of(cs: ColorSpace) -> Option<int> {
    match cs {
        ColorSpace::Mch1 | ColorSpace::Color1 | ColorSpace::Gray => Some(1),
        ColorSpace::Mch2 | ColorSpace::Color2 => Some(2),
        ColorSpace::XYZ | ColorSpace::Lab | ColorSpace::Luv | ColorSpace::YCbCr | ColorSpace::Yxy
        | ColorSpace::Rgb | ColorSpace::Hsv | ColorSpace::Hls | ColorSpace::Cmy | ColorSpace::Mch3
        | ColorSpace::Color3 => Some(3),
        ColorSpace::LuvK | ColorSpace::Cmyk | ColorSpace::Mch4 | ColorSpace::Color4 => Some(4),
        ColorSpace::Mch5 | ColorSpace::Color5 => Some(5),
        ColorSpace::Mch6 | ColorSpace::Color6 => Some(6),
        ColorSpace::Mch7 | ColorSpace::Color7 => Some(7),
        ColorSpace::Mch8 | ColorSpace::Color8 => Some(8),
        ColorSpace::Mch9 | ColorSpace::Color9 => Some(9),
        ColorSpace::MchA | ColorSpace::Color10 => Some(10),
        ColorSpace::MchB | ColorSpace::Color11 => Some(11),
        ColorSpace::MchC | ColorSpace::Color12 => Some(12),
        ColorSpace::MchD | ColorSpace::Color13 => Some(13),
        ColorSpace::MchE | ColorSpace::Color14 => Some(14),
        ColorSpace::MchF | ColorSpace::Color15 => Some(15),
        _ => None,
    }
}

/// The device channel count of a colour space, or `None` for a space without
/// one (the named-colour space and unrecognised signatures).
pub fn channels_of_color_space(cs: ColorSpace) -> (n: Option<usize>)
    ensures
        match n {
            Some(k) => channels_of(cs) == Some(k as int),
            None => channels_of(cs) is None,
        },
{
    match cs {
        ColorSpace::Mch1 | ColorSpace::Color1 | ColorSpace::Gray => Some(1),
        ColorSpace::Mch2 | ColorSpace::Color2 => Some(2),
        ColorSpace::XYZ | ColorSpace::Lab | ColorSpace::Luv | ColorSpace::YCbCr | ColorSpace::Yxy
        | ColorSpace::Rgb | ColorSpace::Hsv | ColorSpace::Hls | ColorSpace::Cmy | ColorSpace::Mch3
        | ColorSpace::Color3 => Some(3),
        ColorSpace::LuvK | ColorSpace::Cmyk | ColorSpace::Mch4 | ColorSpace::Color4 => Some(4),
        ColorSpace::Mch5 | ColorSpace::Color5 => Some(5),
        ColorSpace::Mch6 | ColorSpace::Color6 => Some(6),
        ColorSpace::Mch7 | ColorSpace::Color7 => Some(7),
        ColorSpace::Mch8 | ColorSpace::Color8 => Some(8),
        ColorSpace::Mch9 | ColorSpace::Color9 => Some(9),
        ColorSpace::MchA | ColorSpace::Color10 => Some(10),
        ColorSpace::MchB | ColorSpace::Color11 => Some(11),
        ColorSpace::MchC | ColorSpace::Color12 => Some(12),
        ColorSpace::MchD | ColorSpace::Color13 => Some(13),
        ColorSpace::MchE | ColorSpace::Color14 => Some(14),
        ColorSpace::MchF | ColorSpace::Color15 => Some(15),
        _ => None,
    }
}

/// Every channel count is between 1 and 15, and spaces that may meet at a
/// junction have the same count.
pub proof fn lemma_channels_bounded(a: ColorSpace, b: ColorSpace)
    ensures
        channels_of(a) matches Some(n) ==> 1 <= n <= 15,
        compatible(a, b) ==> channels_of(a) == channels_of(b),
{
}

/// The channel count of each space: one for gray and single-channel spaces,
/// three for the PCS and the three-component spaces, four for CMYK and its
/// kin, and for the n-channel and n-colour spaces exactly n.
pub proof fn lemma_channel_table(cs: ColorSpace)
    ensures
        cs == ColorSpace::Gray ==> channels_of(cs) == Some(1int),
        (cs == ColorSpace::XYZ || cs == ColorSpace::Lab || cs == ColorSpace::Rgb || cs
            == ColorSpace::Luv || cs == ColorSpace::YCbCr || cs == ColorSpace::Yxy || cs
            == ColorSpace::Hsv || cs == ColorSpace::Hls || cs == ColorSpace::Cmy) ==> channels_of(
            cs,
        ) == Some(3int),
        (cs == ColorSpace::Cmyk || cs == ColorSpace::LuvK) ==> channels_of(cs) == Some(4int),
        cs == ColorSpace::Mch1 || cs == ColorSpace::Color1 ==> channels_of(cs) == Some(1int),
        cs == ColorSpace::Mch2 || cs == ColorSpace::Color2 ==> channels_of(cs) == Some(2int),
        cs == ColorSpace::Mch3 || cs == ColorSpace::Color3 ==> channels_of(cs) == Some(3int),
        cs == ColorSpace::Mch4 || cs == ColorSpace::Color4 ==> channels_of(cs) == Some(4int),
        cs == ColorSpace::Mch5 || cs == ColorSpace::Color5 ==> channels_of(cs) == Some(5int),
        cs == ColorSpace::Mch6 || cs == ColorSpace::Color6 ==> channels_of(cs) == Some(6int),
        cs == ColorSpace::Mch7 || cs == ColorSpace::Color7 ==> channels_of(cs) == Some(7int),
        cs == ColorSpace::Mch8 || cs == ColorSpace::Color8 ==> channels_of(cs) == Some(8int),
        cs == ColorSpace::Mch9 || cs == ColorSpace::Color9 ==> channels_of(cs) == Some(9int),
        cs == ColorSpace::MchA || cs == ColorSpace::Color10 ==> channels_of(cs) == Some(10int),
        cs == ColorSpace::MchB || cs == ColorSpace::Color11 ==> channels_of(cs) == Some(11int),
        cs == ColorSpace::MchC || cs == ColorSpace::Color12 ==> channels_of(cs) == Some(12int),
        cs == ColorSpace::MchD || cs == ColorSpace::Color13 ==> channels_of(cs) == Some(13int),
        cs == ColorSpace::MchE || cs == ColorSpace::Color14 ==> channels_of(cs) == Some(14int),
        cs == ColorSpace::MchF || cs == ColorSpace::Color15 ==> channels_of(cs) == Some(15int),
        (cs == ColorSpace::Named || cs is Unknown) ==> channels_of(cs) is None,
{
}

/// Two different spaces meet at a junction only as CMYK with its four-channel
/// stand-in or as XYZ with Lab, in either order.
pub proof fn lemma_compatible_pairs(a: ColorSpace, b: ColorSpace)
    ensures
        compatible(a, b) <==> (a == b || (a == ColorSpace::Mch4 && b == ColorSpace::Cmyk) || (a
            == ColorSpace::Cmyk && b == ColorSpace::Mch4) || (a == ColorSpace::XYZ && b
            == ColorSpace::Lab) || (a == ColorSpace::Lab && b == ColorSpace::XYZ)),
        a != b && compatible(a, b) ==> channels_of(a) == channels_of(b),
        compatible(ColorSpace::Rgb, ColorSpace::XYZ) == false,
{
}

/// The PCS-adaptation stages a junction may need.
#[derive(Debug, Clone, Copy, PartialEq, Eq, Hash, Structural)]
pub enum StageKind {
    /// The 3x3 matrix plus offset, operating in XYZ.
    Matrix,
    /// Lab to XYZ.
    Lab2Xyz,
    /// XYZ to Lab.
    Xyz2Lab,
}

/// The stages appended for an `in_pcs` to `out_pcs` junction whose matrix and
/// offset are `empty` (close enough to identity to drop) or not:
/// - XYZ to XYZ: the matrix, unless empty;
/// - XYZ to Lab: the matrix unless empty, then XYZ to Lab;
/// - Lab to XYZ: Lab to XYZ, then the matrix unless empty;
/// - Lab to Lab: Lab to XYZ, the matrix, XYZ to Lab, or none of them if empty;
/// - otherwise nothing when the spaces are equal, else a mismatch.
pub open spec fn conversion_plan(in_pcs: ColorSpace, out_pcs: ColorSpace, empty: bool) -> Result<
    Seq<StageKind>,
    Error,
> {
    let matrix: Seq<StageKind> = if empty {
        seq![]
    } else {
        seq![StageKind::Matrix]
    };
    match in_pcs {
        ColorSpace::XYZ => match out_pcs {
            ColorSpace::XYZ => Ok(matrix),
            ColorSpace::Lab => Ok(matrix.push(StageKind::Xyz2Lab)),
            _ => Err(Error::Corrupt("ColorSpace mismatch")),
        },
        ColorSpace::Lab => match out_pcs {
            ColorSpace::XYZ => Ok(seq![StageKind::Lab2Xyz] + matrix),
            ColorSpace::Lab => Ok(
                if empty {
                    seq![]
                } else {
                    seq![StageKind::Lab2Xyz, StageKind::Matrix, StageKind::Xyz2Lab]
                },
            ),
            _ => Err(Error::Corrupt("ColorSpace mismatch")),
        },
        _ => if in_pcs == out_pcs {
            Ok(seq![])
        } else {
            Err(Error::Corrupt("ColorSpace mismatch"))
        },
    }
}

/// The stages to append at an `in_pcs` to `out_pcs` junction; `empty` says
/// whether the junction's matrix and offset are close enough to identity for
/// the matrix stage to be dropped.
pub fn conversion_stages(in_pcs: ColorSpace, out_pcs: ColorSpace, empty: bool) -> (r: Result<
    Vec<StageKind>,
    Error,
>)
    ensures
        match r {
            Ok(v) => conversion_plan(in_pcs, out_pcs, empty) == Ok::<Seq<StageKind>, Error>(v@),
            Err(e) => conversion_plan(in_pcs, out_pcs, empty) == Err::<Seq<StageKind>, Error>(e),
        },
{
    let mut v: Vec<StageKind> = Vec::new();
    match in_pcs {
        ColorSpace::XYZ => match out_pcs {
            ColorSpace::XYZ => {
                if !empty {
                    v.push(StageKind::Matrix);
                }
            },
            ColorSpace::Lab => {
                if !empty {
                    v.push(StageKind::Matrix);
                }
                v.push(StageKind::Xyz2Lab);
            },
            _ => {
                return Err(Error::Corrupt("ColorSpace mismatch"));
            },
        },
        ColorSpace::Lab => match out_pcs {
            ColorSpace::XYZ => {
                v.push(StageKind::Lab2Xyz);
                if !empty {
                    v.push(StageKind::Matrix);
                }
            },
            ColorSpace::Lab => {
                if !empty {
                    v.push(StageKind::Lab2Xyz);
                    v.push(StageKind::Matrix);
                    v.push(StageKind::Xyz2Lab);
                }
            },
            _ => {
                return Err(Error::Corrupt("ColorSpace mismatch"));
            },
        },
        _ => {
            if in_pcs != out_pcs {
                return Err(Error::Corrupt("ColorSpace mismatch"));
            }
        },
    }
    proof {
        if let Ok(w) = conversion_plan(in_pcs, out_pcs, empty) {
            assert(v@ =~= w);
        }
    }
    Ok(v)
}

/// The space data is in after running `stages` on data in `cs`, or `None`
/// when a stage receives data in a space it does not take.
pub open spec fn run_stages(cs: ColorSpace, stages: Seq<StageKind>) -> Option<ColorSpace>
    decreases stages.len(),
{
    if stages.len() == 0 {
        Some(cs)
    } else {
        let next = match stages[0] {
            StageKind::Matrix => if cs == ColorSpace::XYZ {
                Some(ColorSpace::XYZ)
            } else {
                None
            },
            StageKind::Lab2Xyz => if cs == ColorSpace::Lab {
                Some(ColorSpace::XYZ)
            } else {
                None
            },
            StageKind::Xyz2Lab => if cs == ColorSpace::XYZ {
                Some(ColorSpace::Lab)
            } else {
                None
            },
        };
        match next {
            Some(c) => run_stages(c, stages.drop_first()),
            None => None,
        }
    }
}

/// The stages planned for a junction take data from `in_pcs` to `out_pcs`,
/// each stage receiving data in the space it expects; the matrix stage is
/// there exactly when the layer is not empty and the junction is between PCS
/// spaces; a same-space junction with an empty layer adds nothing.
pub proof fn lemma_conversion_plan_well_typed(
    in_pcs: ColorSpace,
    out_pcs: ColorSpace,
    empty: bool,
)
    ensures
        conversion_plan(in_pcs, out_pcs, empty) matches Ok(st) ==> run_stages(in_pcs, st) == Some(
            out_pcs,
        ),
        conversion_plan(in_pcs, out_pcs, empty) matches Ok(st) ==> (st.contains(StageKind::Matrix)
            <==> (!empty && (in_pcs == ColorSpace::XYZ || in_pcs == ColorSpace::Lab))),
        conversion_plan(in_pcs, in_pcs, true) == Ok::<Seq<StageKind>, Error>(seq![]),
        conversion_plan(in_pcs, out_pcs, empty) is Err <==> !(in_pcs == out_pcs || (
        compatible(in_pcs, out_pcs) && in_pcs != ColorSpace::Mch4 && in_pcs != ColorSpace::Cmyk)),
{
    reveal_with_fuel(run_stages, 4);
    if let Ok(st) = conversion_plan(in_pcs, out_pcs, empty) {
        if !empty && (in_pcs == ColorSpace::XYZ || in_pcs == ColorSpace::Lab) {
            if in_pcs == ColorSpace::XYZ {
                assert(st[0] == StageKind::Matrix);
            } else {
                assert(st[1] == StageKind::Matrix);
            }
        } else {
            assert forall|k: int| 0 <= k < st.len() implies st[k] != StageKind::Matrix by {}
        }
    }
}

/// Whether a junction conversion can be computed for `intent` with
/// black-point compensation `bpc`: only the plain (identity) conversion is
/// implemented, so absolute colorimetric and compensated junctions are
/// refused.
pub open spec fn conversion_support(intent: RenderingIntent, bpc: bool) -> Result<(), Error> {
    if intent == RenderingIntent::AbsoluteColorimetric {
        Err(Error::Unsupported("absolute-colorimetric conversion not implemented (T3)"))
    } else if bpc {
        Err(Error::Unsupported("black-point-compensation conversion not implemented (T5)"))
    } else {
        Ok(())
    }
}

/// Decides whether the junction conversion for `intent` and `bpc` is the
/// identity (`Ok`) or one this engine does not compute.
pub fn check_conversion(intent: RenderingIntent, bpc: bool) -> (r: Result<(), Error>)
    ensures
        r == conversion_support(intent, bpc),
{
    if intent == RenderingIntent::AbsoluteColorimetric {
        return Err(Error::Unsupported("absolute-colorimetric conversion not implemented (T3)"));
    } else if bpc {
        return Err(Error::Unsupported("black-point-compensation conversion not implemented (T5)"));
    }
    Ok(())
}

/// Only absolute colorimetric and compensated junctions are refused: every
/// other intent without compensation is supported, and the refusals are
/// `Unsupported`.
pub proof fn lemma_conversion_support(intent: RenderingIntent, bpc: bool)
    ensures
        conversion_support(intent, bpc) is Ok <==> (intent != RenderingIntent::AbsoluteColorimetric
            && !bpc),
        conversion_support(intent, bpc) matches Err(e) ==> e is Unsupported,
{
}

/// Which LUT of a profile a chain step reads.
#[derive(Debug, Clone, Copy, PartialEq, Eq, Hash, Structural)]
pub enum LutDirection {
    /// The device-link LUT (device links, abstract profiles, a lone named-colour profile).
    DeviceLink,
    /// The input LUT: a non-PCS connection, no conversion.
    Input,
    /// The output LUT: a PCS connection, where the intent applies.
    Output,
}

/// Which PCS conversion a chain step inserts before its LUT.
#[derive(Debug, Clone, Copy, PartialEq, Eq, Hash, Structural)]
pub enum ConversionSource {
    /// No conversion stage at all.
    NoConversion,
    /// A conversion with the identity matrix and zero offset.
    Identity,
    /// A conversion computed for the step's intent and compensation.
    Computed,
}

/// How one profile of a chain is read and connected.
#[derive(Debug, Clone, Copy, PartialEq, Eq, Hash, Structural)]
pub struct LinkStep {
    pub direction: LutDirection,
    pub conversion: ConversionSource,
    /// The space the step's LUT takes.
    pub color_space_in: ColorSpace,
    /// The space the step's LUT gives; the chain's current space afterwards.
    pub color_space_out: ColorSpace,
}

/// How profile `i` of `n_profiles` (with the given class, data space and PCS)
/// is connected when the chain's data is currently in `current`:
/// - device links and abstract profiles read their device-link LUT, with a
///   computed conversion for an abstract profile past the first, else an
///   identity one; a lone named-colour profile reads it too, with an identity
///   conversion;
/// - the first profile (when not a link) and any profile met while the data is
///   not in a PCS are used in the input direction, without conversion;
/// - otherwise the profile is used in the output direction with a computed
///   conversion;
/// and the step's input space must be compatible with `current`.
pub open spec fn link_step(
    i: int,
    n_profiles: int,
    current: ColorSpace,
    class: ProfileClass,
    color_space: ColorSpace,
    pcs: ColorSpace,
) -> Result<LinkStep, Error> {
    let is_device_link = class == ProfileClass::Link || class == ProfileClass::Abstract;
    let is_input = if i == 0 && !is_device_link {
        true
    } else {
        current != ColorSpace::XYZ && current != ColorSpace::Lab
    };
    let cs_in = if is_input || is_device_link {
        color_space
    } else {
        pcs
    };
    let cs_out = if is_input || is_device_link {
        pcs
    } else {
        color_space
    };
    let single_named = class == ProfileClass::NamedColor && n_profiles == 1;
    if !compatible(cs_in, current) {
        Err(Error::Corrupt("ColorSpace mismatch"))
    } else if is_device_link || single_named {
        Ok(
            LinkStep {
                direction: LutDirection::DeviceLink,
                conversion: if class == ProfileClass::Abstract && i > 0 {
                    ConversionSource::Computed
                } else {
                    ConversionSource::Identity
                },
                color_space_in: cs_in,
                color_space_out: cs_out,
            },
        )
    } else if is_input {
        Ok(
            LinkStep {
                direction: LutDirection::Input,
                conversion: ConversionSource::NoConversion,
                color_space_in: cs_in,
                color_space_out: cs_out,
            },
        )
    } else {
        Ok(
            LinkStep {
                direction: LutDirection::Output,
                conversion: ConversionSource::Computed,
                color_space_in: cs_in,
                color_space_out: cs_out,
            },
        )
    }
}

/// Decides how profile `i` of a chain of `n_profiles` is read and connected,
/// given the chain's current space and the profile's class, data space and
/// PCS.
pub fn plan_link_step(
    i: usize,
    n_profiles: usize,
    current: ColorSpace,
    class: ProfileClass,
    color_space: ColorSpace,
    pcs: ColorSpace,
) -> (r: Result<LinkStep, Error>)
    ensures
        r == link_step(i as int, n_profiles as int, current, class, color_space, pcs),
{
    let is_device_link = class == ProfileClass::Link || class == ProfileClass::Abstract;
    let is_input = if i == 0 && !is_device_link {
        true
    } else {
        current != ColorSpace::XYZ && current != ColorSpace::Lab
    };
    let (cs_in, cs_out) = if is_input || is_device_link {
        (color_space, pcs)
    } else {
        (pcs, color_space)
    };
    if !color_space_is_compatible(cs_in, current) {
        return Err(Error::Corrupt("ColorSpace mismatch"));
    }
    let single_named = class == ProfileClass::NamedColor && n_profiles == 1;
    if is_device_link || single_named {
        let conversion = if class == ProfileClass::Abstract && i > 0 {
            ConversionSource::Computed
        } else {
            ConversionSource::Identity
        };
        Ok(
            LinkStep {
                direction: LutDirection::DeviceLink,
                conversion,
                color_space_in: cs_in,
                color_space_out: cs_out,
            },
        )
    } else if is_input {
        Ok(
            LinkStep {
                direction: LutDirection::Input,
                conversion: ConversionSource::NoConversion,
                color_space_in: cs_in,
                color_space_out: cs_out,
            },
        )
    } else {
        Ok(
            LinkStep {
                direction: LutDirection::Output,
                conversion: ConversionSource::Computed,
                color_space_in: cs_in,
                color_space_out: cs_out,
            },
        )
    }
}

/// The finished chain must give as many channels as its final space has,
/// when that space has a fixed count.
pub fn check_output_width(color_space_out: ColorSpace, output_channels: usize) -> (r: Result<
    (),
    Error,
>)
    ensures
        r is Err <==> (channels_of(color_space_out) matches Some(n) && n != output_channels),
        r matches Err(e) ==> e is Corrupt,
{
    if let Some(n) = channels_of_color_space(color_space_out) {
        if output_channels != n {
            return Err(
                Error::Corrupt(
                    "final pipeline output width does not match output color space channels",
                ),
            );
        }
    }
    Ok(())
}

/// A step that succeeds connects a space compatible with the current one;
/// steps in the output direction always happen while the data is in a PCS,
/// and are the only ones that take the profile's PCS as their input.
pub proof fn lemma_link_step_connects(
    i: int,
    n_profiles: int,
    current: ColorSpace,
    class: ProfileClass,
    color_space: ColorSpace,
    pcs: ColorSpace,
)
    requires
        0 <= i < n_profiles,
    ensures
        link_step(i, n_profiles, current, class, color_space, pcs) matches Ok(st) ==> compatible(
            st.color_space_in,
            current,
        ),
        link_step(i, n_profiles, current, class, color_space, pcs) matches Ok(st) ==> (
        st.direction == LutDirection::Output ==> (current == ColorSpace::XYZ || current
            == ColorSpace::Lab) && st.color_space_in == pcs && st.color_space_out == color_space),
        link_step(i, n_profiles, current, class, color_space, pcs) matches Ok(st) ==> (
        st.direction != LutDirection::Output ==> st.color_space_in == color_space
            && st.color_space_out == pcs),
{
}


/// How a step reads its profile, by class and position:
/// - device links and abstract profiles always read the device-link LUT;
/// - in a chain of more than one profile no other class reads it;
/// - the first profile of such a chain (and the first of any chain that is not a
///   lone named-colour profile) is read in the input direction, from its data
///   space to its PCS, without conversion, whenever its data space meets the
///   current space;
/// - the output direction always computes a conversion and the input direction
///   never adds one;
/// - a step fails exactly when its input space does not meet the current one.
pub proof fn lemma_link_step_directions(
    i: int,
    n_profiles: int,
    current: ColorSpace,
    class: ProfileClass,
    color_space: ColorSpace,
    pcs: ColorSpace,
)
    requires
        0 <= i < n_profiles,
    ensures
        (class == ProfileClass::Link || class == ProfileClass::Abstract) ==> (link_step(
            i,
            n_profiles,
            current,
            class,
            color_space,
            pcs,
        ) matches Ok(st) ==> st.direction == LutDirection::DeviceLink),
        (n_profiles > 1 && class != ProfileClass::Link && class != ProfileClass::Abstract) ==> (
        link_step(i, n_profiles, current, class, color_space, pcs) matches Ok(st)
            ==> st.direction != LutDirection::DeviceLink),
        (i == 0 && class != ProfileClass::Link && class != ProfileClass::Abstract && !(class
            == ProfileClass::NamedColor && n_profiles == 1)) ==> (link_step(
            i,
            n_profiles,
            current,
            class,
            color_space,
            pcs,
        ) == if compatible(color_space, current) {
            Ok::<LinkStep, Error>(
                LinkStep {
                    direction: LutDirection::Input,
                    conversion: ConversionSource::NoConversion,
                    color_space_in: color_space,
                    color_space_out: pcs,
                },
            )
        } else {
            Err::<LinkStep, Error>(Error::Corrupt("ColorSpace mismatch"))
        }),
        link_step(i, n_profiles, current, class, color_space, pcs) matches Ok(st) ==> (
        st.direction == LutDirection::Output ==> st.conversion == ConversionSource::Computed),
        link_step(i, n_profiles, current, class, color_space, pcs) matches Ok(st) ==> (
        st.direction == LutDirection::Input ==> st.conversion == ConversionSource::NoConversion),
        link_step(i, n_profiles, current, class, color_space, pcs) matches Ok(st) ==> (
        st.direction == LutDirection::DeviceLink && class != ProfileClass::Abstract
            ==> st.conversion == ConversionSource::Identity),
        link_step(i, n_profiles, current, class, color_space, pcs) is Err ==> !compatible(
            color_space,
            current,
        ) || !compatible(pcs, current),
{
}

/// A chain's plan: the steps that succeed, in chain order, and the failure of
/// the step after them, if one fails.
#[derive(Debug)]
pub struct ChainPlan {
    pub steps: Vec<LinkStep>,
    pub failure: Option<Error>,
}

/// The space the chain's data is in when step `k` starts: the first profile's
/// data space, then each step's output space.
pub open spec fn space_before(profiles: Seq<&Profile>, steps: Seq<LinkStep>, k: int) -> ColorSpace {
    if k == 0 {
        profiles[0]@.header.color_space
    } else {
        steps[k - 1].color_space_out
    }
}

/// What step `k` of the chain of `profiles` is, once the steps before it are
/// `steps`.
pub open spec fn chain_step(profiles: Seq<&Profile>, steps: Seq<LinkStep>, k: int) -> Result<
    LinkStep,
    Error,
> {
    link_step(
        k,
        profiles.len() as int,
        space_before(profiles, steps, k),
        profiles[k]@.header.device_class,
        profiles[k]@.header.color_space,
        profiles[k]@.header.pcs,
    )
}

/// `steps` are the chain's first steps: each is what `chain_step` gives.
pub open spec fn chain_prefix(profiles: Seq<&Profile>, steps: Seq<LinkStep>) -> bool {
    &&& steps.len() <= profiles.len()
    &&& forall|k: int|
        0 <= k < steps.len() ==> chain_step(profiles, steps, k) == Ok::<LinkStep, Error>(
            #[trigger] steps[k],
        )
}

/// Plans how every profile of the chain is read and connected: the chain
/// starts in the first profile's data space, and each step starts in the space
/// the previous one ended in. Planning stops at the first step that fails. An
/// empty chain is out of range.
pub fn plan_chain(profiles: &[&Profile]) -> (r: Result<ChainPlan, Error>)
    ensures
        r is Err <==> profiles@.len() == 0,
        r matches Err(e) ==> e == Error::Range,
        r matches Ok(p) ==> {
            &&& chain_prefix(profiles@, p.steps@)
            &&& p.failure is None <==> p.steps@.len() == profiles@.len()
            &&& p.failure matches Some(e) ==> chain_step(profiles@, p.steps@, p.steps@.len() as int)
                == Err::<LinkStep, Error>(e)
        },
{
    let n = profiles.len();
    if n == 0 {
        return Err(Error::Range);
    }
    let mut steps: Vec<LinkStep> = Vec::new();
    let mut current = profiles[0].header().color_space;
    let mut i: usize = 0;
    while i < n
        invariant
            n == profiles@.len(),
            n > 0,
            i <= n,
            steps@.len() == i,
            current == space_before(profiles@, steps@, i as int),
            chain_prefix(profiles@, steps@),
        decreases n - i,
    {
        let h = profiles[i].header();
        match plan_link_step(i, n, current, h.device_class, h.color_space, h.pcs) {
            Ok(step) => {
                let ghost before = steps@;
                steps.push(step);
                assert forall|k: int| 0 <= k < steps@.len() implies chain_step(
                    profiles@,
                    steps@,
                    k,
                ) == Ok::<LinkStep, Error>(#[trigger] steps@[k]) by {
                    assert(space_before(profiles@, steps@, k) == space_before(profiles@, before, k));
                }
                current = step.color_space_out;
            },
            Err(e) => {
                return Ok(ChainPlan { steps, failure: Some(e) });
            },
        }
        i = i + 1;
    }
    Ok(ChainPlan { steps, failure: None })
}

/// Consecutive steps of a planned chain connect: the first step takes a space
/// compatible with the first profile's data space, and every later step takes
/// a space compatible with the one the step before it gave.
pub proof fn lemma_chain_connects(profiles: Seq<&Profile>, steps: Seq<LinkStep>)
    requires
        chain_prefix(profiles, steps),
    ensures
        steps.len() > 0 ==> compatible(steps[0].color_space_in, profiles[0]@.header.color_space),
        forall|k: int|
            0 < k < steps.len() ==> compatible(
                #[trigger] steps[k].color_space_in,
                steps[k - 1].color_space_out,
            ),
{
    assert forall|k: int| 0 <= k < steps.len() implies compatible(
        #[trigger] steps[k].color_space_in,
        space_before(profiles, steps, k),
    ) by {
        assert(chain_step(profiles, steps, k) == Ok::<LinkStep, Error>(steps[k]));
        lemma_link_step_connects(
            k,
            profiles.len() as int,
            space_before(profiles, steps, k),
            profiles[k]@.header.device_class,
            profiles[k]@.header.color_space,
            profiles[k]@.header.pcs,
        );
    }
}

} // verus!
