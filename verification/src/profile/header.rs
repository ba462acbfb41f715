//! The 128-byte ICC profile header.
use vstd::prelude::*;

use crate::error::Error;
use crate::io::{be16, be32, ProfileReader};

verus! {

/// An ICC colour-space signature. Signatures outside the ICC list are kept
/// verbatim in `Unknown`.
#[derive(Debug, Clone, Copy, PartialEq, Eq, Hash, Structural)]
pub enum ColorSpace {
    XYZ,
    Lab,
    Luv,
    YCbCr,
    Yxy,
    Rgb,
    Gray,
    Hsv,
    Hls,
    Cmyk,
    Cmy,
    Mch1,
    Mch2,
    Mch3,
    Mch4,
    Mch5,
    Mch6,
    Mch7,
    Mch8,
    Mch9,
    MchA,
    MchB,
    MchC,
    MchD,
    MchE,
    MchF,
    Named,
    Color1,
    Color2,
    Color3,
    Color4,
    Color5,
    Color6,
    Color7,
    Color8,
    Color9,
    Color10,
    Color11,
    Color12,
    Color13,
    Color14,
    Color15,
    LuvK,
    Unknown(u32),
}

/// The colour space named by the signature `raw`.
pub open spec fn color_space_of(raw: u32) -> ColorSpace {
    if raw == 0x58595A20 {
        ColorSpace::XYZ
    } else if raw == 0x4C616220 {
        ColorSpace::Lab
    } else if raw == 0x4C757620 {
        ColorSpace::Luv
    } else if raw == 0x59436272 {
        ColorSpace::YCbCr
    } else if raw == 0x59787920 {
        ColorSpace::Yxy
    } else if raw == 0x52474220 {
        ColorSpace::Rgb
    } else if raw == 0x47524159 {
        ColorSpace::Gray
    } else if raw == 0x48535620 {
        ColorSpace::Hsv
    } else if raw == 0x484C5320 {
        ColorSpace::Hls
    } else if raw == 0x434D594B {
        ColorSpace::Cmyk
    } else if raw == 0x434D5920 {
        ColorSpace::Cmy
    } else if raw == 0x4D434831 {
        ColorSpace::Mch1
    } else if raw == 0x4D434832 {
        ColorSpace::Mch2
    } else if raw == 0x4D434833 {
        ColorSpace::Mch3
    } else if raw == 0x4D434834 {
        ColorSpace::Mch4
    } else if raw == 0x4D434835 {
        ColorSpace::Mch5
    } else if raw == 0x4D434836 {
        ColorSpace::Mch6
    } else if raw == 0x4D434837 {
        ColorSpace::Mch7
    } else if raw == 0x4D434838 {
        ColorSpace::Mch8
    } else if raw == 0x4D434839 {
        ColorSpace::Mch9
    } else if raw == 0x4D434841 {
        ColorSpace::MchA
    } else if raw == 0x4D434842 {
        ColorSpace::MchB
    } else if raw == 0x4D434843 {
        ColorSpace::MchC
    } else if raw == 0x4D434844 {
        ColorSpace::MchD
    } else if raw == 0x4D434845 {
        ColorSpace::MchE
    } else if raw == 0x4D434846 {
        ColorSpace::MchF
    } else if raw == 0x6E6D636C {
        ColorSpace::Named
    } else if raw == 0x31434C52 {
        ColorSpace::Color1
    } else if raw == 0x32434C52 {
        ColorSpace::Color2
    } else if raw == 0x33434C52 {
        ColorSpace::Color3
    } else if raw == 0x34434C52 {
        ColorSpace::Color4
    } else if raw == 0x35434C52 {
        ColorSpace::Color5
    } else if raw == 0x36434C52 {
        ColorSpace::Color6
    } else if raw == 0x37434C52 {
        ColorSpace::Color7
    } else if raw == 0x38434C52 {
        ColorSpace::Color8
    } else if raw == 0x39434C52 {
        ColorSpace::Color9
    } else if raw == 0x41434C52 {
        ColorSpace::Color10
    } else if raw == 0x42434C52 {
        ColorSpace::Color11
    } else if raw == 0x43434C52 {
        ColorSpace::Color12
    } else if raw == 0x44434C52 {
        ColorSpace::Color13
    } else if raw == 0x45434C52 {
        ColorSpace::Color14
    } else if raw == 0x46434C52 {
        ColorSpace::Color15
    } else if raw == 0x4C75764B {
        ColorSpace::LuvK
    } else {
        ColorSpace::Unknown(raw)
    }
}

/// The signature of a colour space.
pub open spec fn color_space_raw(cs: ColorSpace) -> u32 {
    match cs {
        ColorSpace::XYZ => 0x58595A20,
        ColorSpace::Lab => 0x4C616220,
        ColorSpace::Luv => 0x4C757620,
        ColorSpace::YCbCr => 0x59436272,
        ColorSpace::Yxy => 0x59787920,
        ColorSpace::Rgb => 0x52474220,
        ColorSpace::Gray => 0x47524159,
        ColorSpace::Hsv => 0x48535620,
        ColorSpace::Hls => 0x484C5320,
        ColorSpace::Cmyk => 0x434D594B,
        ColorSpace::Cmy => 0x434D5920,
        ColorSpace::Mch1 => 0x4D434831,
        ColorSpace::Mch2 => 0x4D434832,
        ColorSpace::Mch3 => 0x4D434833,
        ColorSpace::Mch4 => 0x4D434834,
        ColorSpace::Mch5 => 0x4D434835,
        ColorSpace::Mch6 => 0x4D434836,
        ColorSpace::Mch7 => 0x4D434837,
        ColorSpace::Mch8 => 0x4D434838,
        ColorSpace::Mch9 => 0x4D434839,
        ColorSpace::MchA => 0x4D434841,
        ColorSpace::MchB => 0x4D434842,
        ColorSpace::MchC => 0x4D434843,
        ColorSpace::MchD => 0x4D434844,
        ColorSpace::MchE => 0x4D434845,
        ColorSpace::MchF => 0x4D434846,
        ColorSpace::Named => 0x6E6D636C,
        ColorSpace::Color1 => 0x31434C52,
        ColorSpace::Color2 => 0x32434C52,
        ColorSpace::Color3 => 0x33434C52,
        ColorSpace::Color4 => 0x34434C52,
        ColorSpace::Color5 => 0x35434C52,
        ColorSpace::Color6 => 0x36434C52,
        ColorSpace::Color7 => 0x37434C52,
        ColorSpace::Color8 => 0x38434C52,
        ColorSpace::Color9 => 0x39434C52,
        ColorSpace::Color10 => 0x41434C52,
        ColorSpace::Color11 => 0x42434C52,
        ColorSpace::Color12 => 0x43434C52,
        ColorSpace::Color13 => 0x44434C52,
        ColorSpace::Color14 => 0x45434C52,
        ColorSpace::Color15 => 0x46434C52,
        ColorSpace::LuvK => 0x4C75764B,
        ColorSpace::Unknown(raw) => raw,
    }
}

impl ColorSpace {
    /// The colour space named by the signature `raw` (never fails: unknown
    /// signatures are kept in `Unknown`).
    pub fn from_raw(raw: u32) -> (cs: ColorSpace)
        ensures
            cs == color_space_of(raw),
    {
        if raw == 0x58595A20 {
            ColorSpace::XYZ
        } else if raw == 0x4C616220 {
            ColorSpace::Lab
        } else if raw == 0x4C757620 {
            ColorSpace::Luv
        } else if raw == 0x59436272 {
            ColorSpace::YCbCr
        } else if raw == 0x59787920 {
            ColorSpace::Yxy
        } else if raw == 0x52474220 {
            ColorSpace::Rgb
        } else if raw == 0x47524159 {
            ColorSpace::Gray
        } else if raw == 0x48535620 {
            ColorSpace::Hsv
        } else if raw == 0x484C5320 {
            ColorSpace::Hls
        } else if raw == 0x434D594B {
            ColorSpace::Cmyk
        } else if raw == 0x434D5920 {
            ColorSpace::Cmy
        } else if raw == 0x4D434831 {
            ColorSpace::Mch1
        } else if raw == 0x4D434832 {
            ColorSpace::Mch2
        } else if raw == 0x4D434833 {
            ColorSpace::Mch3
        } else if raw == 0x4D434834 {
            ColorSpace::Mch4
        } else if raw == 0x4D434835 {
            ColorSpace::Mch5
        } else if raw == 0x4D434836 {
            ColorSpace::Mch6
        } else if raw == 0x4D434837 {
            ColorSpace::Mch7
        } else if raw == 0x4D434838 {
            ColorSpace::Mch8
        } else if raw == 0x4D434839 {
            ColorSpace::Mch9
        } else if raw == 0x4D434841 {
            ColorSpace::MchA
        } else if raw == 0x4D434842 {
            ColorSpace::MchB
        } else if raw == 0x4D434843 {
            ColorSpace::MchC
        } else if raw == 0x4D434844 {
            ColorSpace::MchD
        } else if raw == 0x4D434845 {
            ColorSpace::MchE
        } else if raw == 0x4D434846 {
            ColorSpace::MchF
        } else if raw == 0x6E6D636C {
            ColorSpace::Named
        } else if raw == 0x31434C52 {
            ColorSpace::Color1
        } else if raw == 0x32434C52 {
            ColorSpace::Color2
        } else if raw == 0x33434C52 {
            ColorSpace::Color3
        } else if raw == 0x34434C52 {
            ColorSpace::Color4
        } else if raw == 0x35434C52 {
            ColorSpace::Color5
        } else if raw == 0x36434C52 {
            ColorSpace::Color6
        } else if raw == 0x37434C52 {
            ColorSpace::Color7
        } else if raw == 0x38434C52 {
            ColorSpace::Color8
        } else if raw == 0x39434C52 {
            ColorSpace::Color9
        } else if raw == 0x41434C52 {
            ColorSpace::Color10
        } else if raw == 0x42434C52 {
            ColorSpace::Color11
        } else if raw == 0x43434C52 {
            ColorSpace::Color12
        } else if raw == 0x44434C52 {
            ColorSpace::Color13
        } else if raw == 0x45434C52 {
            ColorSpace::Color14
        } else if raw == 0x46434C52 {
            ColorSpace::Color15
        } else if raw == 0x4C75764B {
            ColorSpace::LuvK
        } else {
            ColorSpace::Unknown(raw)
        }
    }

    /// The signature of this colour space.
    pub fn to_raw(&self) -> (raw: u32)
        ensures
            raw == color_space_raw(*self),
    {
        match *self {
            ColorSpace::XYZ => 0x58595A20,
            ColorSpace::Lab => 0x4C616220,
            ColorSpace::Luv => 0x4C757620,
            ColorSpace::YCbCr => 0x59436272,
            ColorSpace::Yxy => 0x59787920,
            ColorSpace::Rgb => 0x52474220,
            ColorSpace::Gray => 0x47524159,
            ColorSpace::Hsv => 0x48535620,
            ColorSpace::Hls => 0x484C5320,
            ColorSpace::Cmyk => 0x434D594B,
            ColorSpace::Cmy => 0x434D5920,
            ColorSpace::Mch1 => 0x4D434831,
            ColorSpace::Mch2 => 0x4D434832,
            ColorSpace::Mch3 => 0x4D434833,
            ColorSpace::Mch4 => 0x4D434834,
            ColorSpace::Mch5 => 0x4D434835,
            ColorSpace::Mch6 => 0x4D434836,
            ColorSpace::Mch7 => 0x4D434837,
            ColorSpace::Mch8 => 0x4D434838,
            ColorSpace::Mch9 => 0x4D434839,
            ColorSpace::MchA => 0x4D434841,
            ColorSpace::MchB => 0x4D434842,
            ColorSpace::MchC => 0x4D434843,
            ColorSpace::MchD => 0x4D434844,
            ColorSpace::MchE => 0x4D434845,
            ColorSpace::MchF => 0x4D434846,
            ColorSpace::Named => 0x6E6D636C,
            ColorSpace::Color1 => 0x31434C52,
            ColorSpace::Color2 => 0x32434C52,
            ColorSpace::Color3 => 0x33434C52,
            ColorSpace::Color4 => 0x34434C52,
            ColorSpace::Color5 => 0x35434C52,
            ColorSpace::Color6 => 0x36434C52,
            ColorSpace::Color7 => 0x37434C52,
            ColorSpace::Color8 => 0x38434C52,
            ColorSpace::Color9 => 0x39434C52,
            ColorSpace::Color10 => 0x41434C52,
            ColorSpace::Color11 => 0x42434C52,
            ColorSpace::Color12 => 0x43434C52,
            ColorSpace::Color13 => 0x44434C52,
            ColorSpace::Color14 => 0x45434C52,
            ColorSpace::Color15 => 0x46434C52,
            ColorSpace::LuvK => 0x4C75764B,
            ColorSpace::Unknown(raw) => raw,
        }
    }
}

/// Reading a signature as a colour space and writing it back gives the same
/// signature, for every 32-bit value.
pub proof fn lemma_color_space_raw_round_trip(raw: u32)
    ensures
        color_space_raw(color_space_of(raw)) == raw,
{
}

/// Each colour-space signature names its own space: a signature decodes to a
/// given ICC space exactly when it is that space's four ASCII characters
/// (`XYZ `, `Lab `, `RGB `, `GRAY`, `CMYK`, `MCH1`..`MCHF`, `1CLR`..`FCLR`, ...), and
/// every other signature is kept as `Unknown` with its value.
pub proof fn lemma_color_space_table(raw: u32)
    ensures
        (color_space_of(raw) == ColorSpace::XYZ) == (raw == 0x58595A20),
        (color_space_of(raw) == ColorSpace::Lab) == (raw == 0x4C616220),
        (color_space_of(raw) == ColorSpace::Luv) == (raw == 0x4C757620),
        (color_space_of(raw) == ColorSpace::YCbCr) == (raw == 0x59436272),
        (color_space_of(raw) == ColorSpace::Yxy) == (raw == 0x59787920),
        (color_space_of(raw) == ColorSpace::Rgb) == (raw == 0x52474220),
        (color_space_of(raw) == ColorSpace::Gray) == (raw == 0x47524159),
        (color_space_of(raw) == ColorSpace::Hsv) == (raw == 0x48535620),
        (color_space_of(raw) == ColorSpace::Hls) == (raw == 0x484C5320),
        (color_space_of(raw) == ColorSpace::Cmyk) == (raw == 0x434D594B),
        (color_space_of(raw) == ColorSpace::Cmy) == (raw == 0x434D5920),
        (color_space_of(raw) == ColorSpace::Mch1) == (raw == 0x4D434831),
        (color_space_of(raw) == ColorSpace::Mch2) == (raw == 0x4D434832),
        (color_space_of(raw) == ColorSpace::Mch3) == (raw == 0x4D434833),
        (color_space_of(raw) == ColorSpace::Mch4) == (raw == 0x4D434834),
        (color_space_of(raw) == ColorSpace::Mch5) == (raw == 0x4D434835),
        (color_space_of(raw) == ColorSpace::Mch6) == (raw == 0x4D434836),
        (color_space_of(raw) == ColorSpace::Mch7) == (raw == 0x4D434837),
        (color_space_of(raw) == ColorSpace::Mch8) == (raw == 0x4D434838),
        (color_space_of(raw) == ColorSpace::Mch9) == (raw == 0x4D434839),
        (color_space_of(raw) == ColorSpace::MchA) == (raw == 0x4D434841),
        (color_space_of(raw) == ColorSpace::MchB) == (raw == 0x4D434842),
        (color_space_of(raw) == ColorSpace::MchC) == (raw == 0x4D434843),
        (color_space_of(raw) == ColorSpace::MchD) == (raw == 0x4D434844),
        (color_space_of(raw) == ColorSpace::MchE) == (raw == 0x4D434845),
        (color_space_of(raw) == ColorSpace::MchF) == (raw == 0x4D434846),
        (color_space_of(raw) == ColorSpace::Named) == (raw == 0x6E6D636C),
        (color_space_of(raw) == ColorSpace::Color1) == (raw == 0x31434C52),
        (color_space_of(raw) == ColorSpace::Color2) == (raw == 0x32434C52),
        (color_space_of(raw) == ColorSpace::Color3) == (raw == 0x33434C52),
        (color_space_of(raw) == ColorSpace::Color4) == (raw == 0x34434C52),
        (color_space_of(raw) == ColorSpace::Color5) == (raw == 0x35434C52),
        (color_space_of(raw) == ColorSpace::Color6) == (raw == 0x36434C52),
        (color_space_of(raw) == ColorSpace::Color7) == (raw == 0x37434C52),
        (color_space_of(raw) == ColorSpace::Color8) == (raw == 0x38434C52),
        (color_space_of(raw) == ColorSpace::Color9) == (raw == 0x39434C52),
        (color_space_of(raw) == ColorSpace::Color10) == (raw == 0x41434C52),
        (color_space_of(raw) == ColorSpace::Color11) == (raw == 0x42434C52),
        (color_space_of(raw) == ColorSpace::Color12) == (raw == 0x43434C52),
        (color_space_of(raw) == ColorSpace::Color13) == (raw == 0x44434C52),
        (color_space_of(raw) == ColorSpace::Color14) == (raw == 0x45434C52),
        (color_space_of(raw) == ColorSpace::Color15) == (raw == 0x46434C52),
        (color_space_of(raw) == ColorSpace::LuvK) == (raw == 0x4C75764B),
        (color_space_of(raw) is Unknown) ==> color_space_of(raw) == ColorSpace::Unknown(raw),
{
}

/// The ICC profile/device classes, plus the all-zero class that older
/// writers left in the header.
#[derive(Debug, Clone, Copy, PartialEq, Eq, Hash, Structural)]
pub enum ProfileClass {
    Unspecified,
    Input,
    Display,
    Output,
    Link,
    Abstract,
    ColorSpace,
    NamedColor,
}

/// The device class named by `raw`, or `None` when `raw` names none.
pub open spec fn profile_class_of(raw: u32) -> Option<ProfileClass> {
    if raw == 0 {
        Some(ProfileClass::Unspecified)
    } else if raw == 0x73636E72 {
        Some(ProfileClass::Input)
    } else if raw == 0x6D6E7472 {
        Some(ProfileClass::Display)
    } else if raw == 0x70727472 {
        Some(ProfileClass::Output)
    } else if raw == 0x6C696E6B {
        Some(ProfileClass::Link)
    } else if raw == 0x61627374 {
        Some(ProfileClass::Abstract)
    } else if raw == 0x73706163 {
        Some(ProfileClass::ColorSpace)
    } else if raw == 0x6E6D636C {
        Some(ProfileClass::NamedColor)
    } else {
        None
    }
}

/// The signature of a device class.
pub open spec fn profile_class_raw(c: ProfileClass) -> u32 {
    match c {
        ProfileClass::Unspecified => 0,
        ProfileClass::Input => 0x73636E72,
        ProfileClass::Display => 0x6D6E7472,
        ProfileClass::Output => 0x70727472,
        ProfileClass::Link => 0x6C696E6B,
        ProfileClass::Abstract => 0x61627374,
        ProfileClass::ColorSpace => 0x73706163,
        ProfileClass::NamedColor => 0x6E6D636C,
    }
}

impl ProfileClass {
    /// The device class named by `raw`; `None` for a signature that is not
    /// one of the ICC classes (nor zero).
    pub fn from_raw(raw: u32) -> (c: Option<ProfileClass>)
        ensures
            c == profile_class_of(raw),
    {
        if raw == 0 {
            Some(ProfileClass::Unspecified)
        } else if raw == 0x73636E72 {
            Some(ProfileClass::Input)
        } else if raw == 0x6D6E7472 {
            Some(ProfileClass::Display)
        } else if raw == 0x70727472 {
            Some(ProfileClass::Output)
        } else if raw == 0x6C696E6B {
            Some(ProfileClass::Link)
        } else if raw == 0x61627374 {
            Some(ProfileClass::Abstract)
        } else if raw == 0x73706163 {
            Some(ProfileClass::ColorSpace)
        } else if raw == 0x6E6D636C {
            Some(ProfileClass::NamedColor)
        } else {
            None
        }
    }

    /// The signature of this device class.
    pub fn to_raw(&self) -> (raw: u32)
        ensures
            raw == profile_class_raw(*self),
    {
        match *self {
            ProfileClass::Unspecified => 0,
            ProfileClass::Input => 0x73636E72,
            ProfileClass::Display => 0x6D6E7472,
            ProfileClass::Output => 0x70727472,
            ProfileClass::Link => 0x6C696E6B,
            ProfileClass::Abstract => 0x61627374,
            ProfileClass::ColorSpace => 0x73706163,
            ProfileClass::NamedColor => 0x6E6D636C,
        }
    }
}

/// Each device-class signature names its own class: `scnr` input, `mntr`
/// display, `prtr` output, `link` device link, `abst` abstract, `spac` colour
/// space, `nmcl` named colour, zero unspecified; every other signature is
/// refused.
pub proof fn lemma_profile_class_table(raw: u32)
    ensures
        (profile_class_of(raw) == Some(ProfileClass::Input)) == (raw == 0x73636E72),
        (profile_class_of(raw) == Some(ProfileClass::Display)) == (raw == 0x6D6E7472),
        (profile_class_of(raw) == Some(ProfileClass::Output)) == (raw == 0x70727472),
        (profile_class_of(raw) == Some(ProfileClass::Link)) == (raw == 0x6C696E6B),
        (profile_class_of(raw) == Some(ProfileClass::Abstract)) == (raw == 0x61627374),
        (profile_class_of(raw) == Some(ProfileClass::ColorSpace)) == (raw == 0x73706163),
        (profile_class_of(raw) == Some(ProfileClass::NamedColor)) == (raw == 0x6E6D636C),
        (profile_class_of(raw) == Some(ProfileClass::Unspecified)) == (raw == 0),
        profile_class_of(raw) is None <==> !(raw == 0 || raw == 0x73636E72 || raw == 0x6D6E7472
            || raw == 0x70727472 || raw == 0x6C696E6B || raw == 0x61627374 || raw == 0x73706163
            || raw == 0x6E6D636C),
{
}

/// Writing a device class as its signature and reading it back gives the
/// same class.
pub proof fn lemma_profile_class_round_trip(c: ProfileClass)
    ensures
        profile_class_of(profile_class_raw(c)) == Some(c),
{
}

/// The four ICC rendering intents.
#[derive(Debug, Clone, Copy, PartialEq, Eq, Hash, Structural)]
pub enum RenderingIntent {
    Perceptual,
    RelativeColorimetric,
    Saturation,
    AbsoluteColorimetric,
}

/// The ICC number of a rendering intent.
pub open spec fn intent_raw(i: RenderingIntent) -> u32 {
    match i {
        RenderingIntent::Perceptual => 0,
        RenderingIntent::RelativeColorimetric => 1,
        RenderingIntent::Saturation => 2,
        RenderingIntent::AbsoluteColorimetric => 3,
    }
}

/// The rendering intent numbered `raw`, if any.
pub open spec fn intent_of(raw: u32) -> Option<RenderingIntent> {
    if raw == 0 {
        Some(RenderingIntent::Perceptual)
    } else if raw == 1 {
        Some(RenderingIntent::RelativeColorimetric)
    } else if raw == 2 {
        Some(RenderingIntent::Saturation)
    } else if raw == 3 {
        Some(RenderingIntent::AbsoluteColorimetric)
    } else {
        None
    }
}

impl RenderingIntent {
    /// The ICC number of this intent (0..=3).
    pub fn to_raw(&self) -> (raw: u32)
        ensures
            raw == intent_raw(*self),
    {
        match *self {
            RenderingIntent::Perceptual => 0,
            RenderingIntent::RelativeColorimetric => 1,
            RenderingIntent::Saturation => 2,
            RenderingIntent::AbsoluteColorimetric => 3,
        }
    }

    /// The intent numbered `raw`; `None` above 3.
    pub fn from_raw(raw: u32) -> (i: Option<RenderingIntent>)
        ensures
            i == intent_of(raw),
    {
        if raw == 0 {
            Some(RenderingIntent::Perceptual)
        } else if raw == 1 {
            Some(RenderingIntent::RelativeColorimetric)
        } else if raw == 2 {
            Some(RenderingIntent::Saturation)
        } else if raw == 3 {
            Some(RenderingIntent::AbsoluteColorimetric)
        } else {
            None
        }
    }
}

/// Numbering an intent and reading the number back gives the same intent, and
/// exactly the numbers 0..=3 name an intent.
pub proof fn lemma_intent_round_trip(i: RenderingIntent, raw: u32)
    ensures
        intent_of(intent_raw(i)) == Some(i),
        intent_of(raw) is Some <==> raw <= 3,
{
}

/// The ICC numbering of the intents: perceptual 0, relative colorimetric 1,
/// saturation 2, absolute colorimetric 3.
pub proof fn lemma_intent_table(raw: u32)
    ensures
        (intent_of(raw) == Some(RenderingIntent::Perceptual)) == (raw == 0),
        (intent_of(raw) == Some(RenderingIntent::RelativeColorimetric)) == (raw == 1),
        (intent_of(raw) == Some(RenderingIntent::Saturation)) == (raw == 2),
        (intent_of(raw) == Some(RenderingIntent::AbsoluteColorimetric)) == (raw == 3),
        intent_raw(RenderingIntent::Perceptual) == 0,
        intent_raw(RenderingIntent::RelativeColorimetric) == 1,
        intent_raw(RenderingIntent::Saturation) == 2,
        intent_raw(RenderingIntent::AbsoluteColorimetric) == 3,
{
}

/// The creation date and time recorded in a header, as stored.
#[derive(Debug, Clone, Copy, PartialEq, Eq, Hash, Structural)]
pub struct DateTime {
    pub year: u16,
    pub month: u16,
    pub day: u16,
    pub hours: u16,
    pub minutes: u16,
    pub seconds: u16,
}

/// The decoded profile header.
#[derive(Debug, Clone, Copy, PartialEq, Eq)]
pub struct Header {
    /// The profile size the header claims, in bytes.
    pub size: u32,
    pub cmm_id: u32,
    /// The encoded version, after clamping each digit to 9 and zeroing the
    /// bug-fix and reserved bytes.
    pub version: u32,
    pub device_class: ProfileClass,
    pub color_space: ColorSpace,
    pub pcs: ColorSpace,
    pub created: DateTime,
    pub platform: u32,
    pub flags: u32,
    pub manufacturer: u32,
    pub model: u32,
    pub attributes: u64,
    /// The rendering intent number, as stored (not validated).
    pub rendering_intent: u32,
    pub creator: u32,
    pub profile_id: [u8; 16],
}

/// The `acsp` magic number.
pub const MAGIC_NUMBER: u32 = 0x61637370;

/// The size of the fixed profile header.
pub const HEADER_SIZE: usize = 128;

/// The newest profile version accepted.
pub const MAX_VERSION: u32 = 0x0500_0000;

/// The encoded version made from the major byte `b0` and the minor/bug-fix byte
/// `b1`: each decimal digit is clamped to 9 and the two low bytes are zero.
pub open spec fn validated_version(b0: u8, b1: u8) -> int {
    let major = if b0 > 9 { 9 } else { b0 as int };
    let hi = if b1 / 16 > 9 { 9 } else { (b1 / 16) as int };
    let lo = if b1 % 16 > 9 { 9 } else { (b1 % 16) as int };
    major * 0x100_0000 + (hi * 16 + lo) * 0x1_0000
}

/// What checking the header bytes `s` gives: the first failed check, in the
/// order the header is validated, or `Ok`.
pub open spec fn header_check(s: Seq<u8>) -> Result<(), Error> {
    if s.len() < 128 {
        Err(Error::Truncated)
    } else if be32(s, 36) != MAGIC_NUMBER {
        Err(Error::BadSignature)
    } else if validated_version(s[8], s[9]) > MAX_VERSION {
        Err(Error::UnsupportedVersion(validated_version(s[8], s[9]) as u32))
    } else if profile_class_of(be32(s, 12) as u32) is None {
        Err(Error::UnsupportedClass(be32(s, 12) as u32))
    } else {
        Ok(())
    }
}

/// `h` is the header stored in the first 128 bytes of `s`.
pub open spec fn header_decodes(h: Header, s: Seq<u8>) -> bool {
    &&& s.len() >= 128
    &&& h.size == be32(s, 0)
    &&& h.cmm_id == be32(s, 4)
    &&& h.version == validated_version(s[8], s[9])
    &&& profile_class_of(be32(s, 12) as u32) == Some(h.device_class)
    &&& h.color_space == color_space_of(be32(s, 16) as u32)
    &&& h.pcs == color_space_of(be32(s, 20) as u32)
    &&& h.created.year == be16(s, 24)
    &&& h.created.month == be16(s, 26)
    &&& h.created.day == be16(s, 28)
    &&& h.created.hours == be16(s, 30)
    &&& h.created.minutes == be16(s, 32)
    &&& h.created.seconds == be16(s, 34)
    &&& h.platform == be32(s, 40)
    &&& h.flags == be32(s, 44)
    &&& h.manufacturer == be32(s, 48)
    &&& h.model == be32(s, 52)
    &&& h.attributes == be32(s, 56) * 0x1_0000_0000 + be32(s, 60)
    &&& h.rendering_intent == be32(s, 64)
    &&& h.creator == be32(s, 80)
    &&& h.profile_id@ == s.subrange(84, 100)
}

fn be16_at(b: &Vec<u8>, i: usize) -> (v: u16)
    requires
        i + 2 <= b.len(),
    ensures
        v == be16(b@, i as int),
{
    (b[i] as u16) * 0x100 + b[i + 1] as u16
}

fn be32_at(b: &Vec<u8>, i: usize) -> (v: u32)
    requires
        i + 4 <= b.len(),
    ensures
        v == be32(b@, i as int),
{
    (b[i] as u32) * 0x100_0000 + (b[i + 1] as u32) * 0x1_0000 + (b[i + 2] as u32) * 0x100
        + b[i + 3] as u32
}

fn validate_version(b0: u8, b1: u8) -> (v: u32)
    ensures
        v == validated_version(b0, b1),
{
    let major: u32 = if b0 > 9 {
        9
    } else {
        b0 as u32
    };
    let hi: u32 = if b1 / 16 > 9 {
        9
    } else {
        (b1 / 16) as u32
    };
    let lo: u32 = if b1 % 16 > 9 {
        9
    } else {
        (b1 % 16) as u32
    };
    major * 0x100_0000 + (hi * 16 + lo) * 0x1_0000
}

impl Header {
    /// Reads and validates the 128-byte header: all 128 bytes must be
    /// present, the magic number must be `acsp`, the validated version must not
    /// exceed 5.0 and the device class must be an ICC class (or zero).
    pub fn parse<R: ProfileReader>(r: &mut R) -> (res: Result<Header, Error>)
        ensures
            match res {
                Ok(h) => {
                    &&& header_check(old(r).unread()) is Ok
                    &&& header_decodes(h, old(r).unread())
                    &&& final(r).unread() == old(r).unread().skip(128)
                },
                Err(e) => header_check(old(r).unread()) == Err::<(), Error>(e),
            },
            final(r).unread() == (if old(r).unread().len() < 128 {
                old(r).unread()
            } else {
                old(r).unread().skip(128)
            }),
    {
        let ghost s = r.unread();
        let b = match r.read_bytes(HEADER_SIZE) {
            Ok(b) => b,
            Err(e) => {
                return Err(e);
            },
        };
        assert(forall|k: int| 0 <= k < 128 ==> b@[k] == s[k]);
        let magic = be32_at(&b, 36);
        if magic != MAGIC_NUMBER {
            return Err(Error::BadSignature);
        }
        let version = validate_version(b[8], b[9]);
        if version > MAX_VERSION {
            return Err(Error::UnsupportedVersion(version));
        }
        let class_raw = be32_at(&b, 12);
        let device_class = match ProfileClass::from_raw(class_raw) {
            Some(c) => c,
            None => {
                return Err(Error::UnsupportedClass(class_raw));
            },
        };
        let created = DateTime {
            year: be16_at(&b, 24),
            month: be16_at(&b, 26),
            day: be16_at(&b, 28),
            hours: be16_at(&b, 30),
            minutes: be16_at(&b, 32),
            seconds: be16_at(&b, 34),
        };
        let attr_hi = be32_at(&b, 56);
        let attr_lo = be32_at(&b, 60);
        let profile_id: [u8; 16] = [
            b[84],
            b[85],
            b[86],
            b[87],
            b[88],
            b[89],
            b[90],
            b[91],
            b[92],
            b[93],
            b[94],
            b[95],
            b[96],
            b[97],
            b[98],
            b[99],
        ];
        assert(profile_id@ =~= s.subrange(84, 100));
        let h = Header {
            size: be32_at(&b, 0),
            cmm_id: be32_at(&b, 4),
            version,
            device_class,
            color_space: ColorSpace::from_raw(be32_at(&b, 16)),
            pcs: ColorSpace::from_raw(be32_at(&b, 20)),
            created,
            platform: be32_at(&b, 40),
            flags: be32_at(&b, 44),
            manufacturer: be32_at(&b, 48),
            model: be32_at(&b, 52),
            attributes: (attr_hi as u64) * 0x1_0000_0000 + attr_lo as u64,
            rendering_intent: be32_at(&b, 64),
            creator: be32_at(&b, 80),
            profile_id,
        };
        Ok(h)
    }
}

} // verus!
