use rcms::error::Error;
use rcms::format::{device_format, TYPE_CMYK_8, TYPE_GRAY_8, TYPE_RGB_8};
use rcms::link::intents::{
    channels_of_color_space, plan_chain, check_conversion, check_output_width,
    color_space_is_compatible, conversion_stages, link_bpc_mutation, plan_link_step,
    ConversionSource, LutDirection, StageKind, ICC_VERSION_V4,
};
use rcms::profile::{ColorSpace, Profile, ProfileClass, RenderingIntent};

/// A header-only RGB display profile with the given version bytes.
fn profile_bytes(major: u8, minor: u8) -> Vec<u8> {
    let mut buf = vec![0u8; 132];
    buf[0..4].copy_from_slice(&132u32.to_be_bytes());
    buf[8] = major;
    buf[9] = minor;
    buf[12..16].copy_from_slice(b"mntr");
    buf[16..20].copy_from_slice(b"RGB ");
    buf[20..24].copy_from_slice(b"XYZ ");
    buf[36..40].copy_from_slice(b"acsp");
    buf
}

#[test]
fn bpc_absolute_forced_off_on_v4() {
    let bytes = profile_bytes(4, 0x20);
    let p = Profile::open(&bytes).unwrap();
    assert!(p.header().version >= ICC_VERSION_V4);
    let profiles = [&p, &p];
    let mut bpc = [true, true];
    link_bpc_mutation(
        &[RenderingIntent::AbsoluteColorimetric, RenderingIntent::AbsoluteColorimetric],
        &profiles,
        &mut bpc,
    );
    assert_eq!(bpc, [false, false]);
}

#[test]
fn bpc_v4_perceptual_and_saturation_forced_on() {
    let bytes = profile_bytes(4, 0x20);
    let p = Profile::open(&bytes).unwrap();
    let profiles = [&p, &p];
    let mut bpc = [false, false];
    link_bpc_mutation(
        &[RenderingIntent::Perceptual, RenderingIntent::Saturation],
        &profiles,
        &mut bpc,
    );
    assert_eq!(bpc, [true, true]);
}

#[test]
fn bpc_v2_perceptual_and_relative_unchanged() {
    let bytes = profile_bytes(2, 0x10);
    let p = Profile::open(&bytes).unwrap();
    assert!(p.header().version < ICC_VERSION_V4);
    let profiles = [&p, &p];
    let mut bpc = [false, true];
    link_bpc_mutation(
        &[RenderingIntent::Perceptual, RenderingIntent::Perceptual],
        &profiles,
        &mut bpc,
    );
    assert_eq!(bpc, [false, true]);

    let mut bpc2 = [true, false];
    link_bpc_mutation(
        &[RenderingIntent::RelativeColorimetric, RenderingIntent::RelativeColorimetric],
        &profiles,
        &mut bpc2,
    );
    assert_eq!(bpc2, [true, false]);
}

#[test]
fn bpc_mutation_is_idempotent_and_leaves_extra_flags() {
    let v4 = profile_bytes(4, 0);
    let v2 = profile_bytes(2, 0);
    let p4 = Profile::open(&v4).unwrap();
    let p2 = Profile::open(&v2).unwrap();
    let profiles = [&p4, &p2];
    let intents = [RenderingIntent::Saturation, RenderingIntent::AbsoluteColorimetric];
    let mut bpc = [false, true, true];
    link_bpc_mutation(&intents, &profiles, &mut bpc);
    assert_eq!(bpc, [true, false, true]);
    let once = bpc;
    link_bpc_mutation(&intents, &profiles, &mut bpc);
    assert_eq!(bpc, once);
}

// In the junction tests below, `true` stands for the identity matrix with a
// zero offset (an empty layer) and `false` for a matrix with one entry moved
// well away from identity, as the junction's emptiness is all the plan reads.

#[test]
fn add_conversion_xyz_to_xyz_empty_inserts_nothing() {
    let p = conversion_stages(ColorSpace::XYZ, ColorSpace::XYZ, true).unwrap();
    assert!(p.is_empty(), "identity XYZ->XYZ adds no stage");
}

#[test]
fn add_conversion_xyz_to_xyz_non_empty_inserts_matrix() {
    let p = conversion_stages(ColorSpace::XYZ, ColorSpace::XYZ, false).unwrap();
    assert_eq!(p.len(), 1);
    assert!(matches!(p[0], StageKind::Matrix));
}

#[test]
fn add_conversion_xyz_to_lab() {
    let p = conversion_stages(ColorSpace::XYZ, ColorSpace::Lab, true).unwrap();
    assert_eq!(p.len(), 1);
    assert!(matches!(p[0], StageKind::Xyz2Lab));

    let p2 = conversion_stages(ColorSpace::XYZ, ColorSpace::Lab, false).unwrap();
    assert_eq!(p2.len(), 2);
    assert!(matches!(p2[0], StageKind::Matrix));
    assert!(matches!(p2[1], StageKind::Xyz2Lab));
}

#[test]
fn add_conversion_lab_to_xyz() {
    let p = conversion_stages(ColorSpace::Lab, ColorSpace::XYZ, true).unwrap();
    assert_eq!(p.len(), 1);
    assert!(matches!(p[0], StageKind::Lab2Xyz));

    let p2 = conversion_stages(ColorSpace::Lab, ColorSpace::XYZ, false).unwrap();
    assert_eq!(p2.len(), 2);
    assert!(matches!(p2[0], StageKind::Lab2Xyz));
    assert!(matches!(p2[1], StageKind::Matrix));
}

#[test]
fn add_conversion_lab_to_lab() {
    let p = conversion_stages(ColorSpace::Lab, ColorSpace::Lab, true).unwrap();
    assert!(p.is_empty());

    let p2 = conversion_stages(ColorSpace::Lab, ColorSpace::Lab, false).unwrap();
    assert_eq!(p2.len(), 3);
    assert!(matches!(p2[0], StageKind::Lab2Xyz));
    assert!(matches!(p2[1], StageKind::Matrix));
    assert!(matches!(p2[2], StageKind::Xyz2Lab));
}

#[test]
fn add_conversion_default_same_space_ok_mismatch_err() {
    let p = conversion_stages(ColorSpace::Rgb, ColorSpace::Rgb, true).unwrap();
    assert!(p.is_empty());
    let err = conversion_stages(ColorSpace::Rgb, ColorSpace::Cmyk, true);
    assert!(err.is_err());
}

#[test]
fn conversion_mismatches_are_corrupt() {
    assert_eq!(conversion_stages(ColorSpace::Rgb, ColorSpace::Rgb, false), Ok(vec![]));
    assert!(matches!(
        conversion_stages(ColorSpace::Rgb, ColorSpace::Cmyk, true),
        Err(Error::Corrupt(_))
    ));
    assert!(matches!(
        conversion_stages(ColorSpace::XYZ, ColorSpace::Rgb, true),
        Err(Error::Corrupt(_))
    ));
    assert!(matches!(
        conversion_stages(ColorSpace::Lab, ColorSpace::Gray, false),
        Err(Error::Corrupt(_))
    ));
    assert!(matches!(
        conversion_stages(ColorSpace::Mch4, ColorSpace::Cmyk, false),
        Err(Error::Corrupt(_))
    ));
}

#[test]
fn conversion_support_by_intent() {
    assert_eq!(check_conversion(RenderingIntent::RelativeColorimetric, false), Ok(()));
    assert_eq!(check_conversion(RenderingIntent::Perceptual, false), Ok(()));
    assert!(matches!(
        check_conversion(RenderingIntent::AbsoluteColorimetric, false),
        Err(Error::Unsupported(_))
    ));
    assert!(matches!(
        check_conversion(RenderingIntent::Saturation, true),
        Err(Error::Unsupported(_))
    ));
}

#[test]
fn compatibility_pairs() {
    assert!(color_space_is_compatible(ColorSpace::Rgb, ColorSpace::Rgb));
    assert!(color_space_is_compatible(ColorSpace::Mch4, ColorSpace::Cmyk));
    assert!(color_space_is_compatible(ColorSpace::Cmyk, ColorSpace::Mch4));
    assert!(color_space_is_compatible(ColorSpace::XYZ, ColorSpace::Lab));
    assert!(color_space_is_compatible(ColorSpace::Lab, ColorSpace::XYZ));
    assert!(!color_space_is_compatible(ColorSpace::Rgb, ColorSpace::Cmyk));
    assert!(!color_space_is_compatible(ColorSpace::Mch3, ColorSpace::Rgb));
}

#[test]
fn channel_counts() {
    assert_eq!(channels_of_color_space(ColorSpace::Gray), Some(1));
    assert_eq!(channels_of_color_space(ColorSpace::Lab), Some(3));
    assert_eq!(channels_of_color_space(ColorSpace::Cmyk), Some(4));
    assert_eq!(channels_of_color_space(ColorSpace::LuvK), Some(4));
    assert_eq!(channels_of_color_space(ColorSpace::MchA), Some(10));
    assert_eq!(channels_of_color_space(ColorSpace::Color15), Some(15));
    assert_eq!(channels_of_color_space(ColorSpace::Named), None);
    assert_eq!(channels_of_color_space(ColorSpace::Unknown(7)), None);
}

#[test]
fn chain_steps_for_rgb_to_cmyk() {
    // Input profile first: device space to PCS, read forwards, no conversion.
    let s0 = plan_link_step(
        0,
        2,
        ColorSpace::Rgb,
        ProfileClass::Display,
        ColorSpace::Rgb,
        ColorSpace::XYZ,
    )
    .unwrap();
    assert_eq!(s0.direction, LutDirection::Input);
    assert_eq!(s0.conversion, ConversionSource::NoConversion);
    assert_eq!((s0.color_space_in, s0.color_space_out), (ColorSpace::Rgb, ColorSpace::XYZ));

    // Output profile next, met in XYZ with a Lab PCS: compatible, computed.
    let s1 = plan_link_step(
        1,
        2,
        s0.color_space_out,
        ProfileClass::Output,
        ColorSpace::Cmyk,
        ColorSpace::Lab,
    )
    .unwrap();
    assert_eq!(s1.direction, LutDirection::Output);
    assert_eq!(s1.conversion, ConversionSource::Computed);
    assert_eq!((s1.color_space_in, s1.color_space_out), (ColorSpace::Lab, ColorSpace::Cmyk));
    assert_eq!(check_output_width(s1.color_space_out, 4), Ok(()));
    assert!(matches!(check_output_width(s1.color_space_out, 3), Err(Error::Corrupt(_))));
}

#[test]
fn chain_steps_device_links_and_mismatches() {
    let link = plan_link_step(
        0,
        1,
        ColorSpace::Rgb,
        ProfileClass::Link,
        ColorSpace::Rgb,
        ColorSpace::Cmyk,
    )
    .unwrap();
    assert_eq!(link.direction, LutDirection::DeviceLink);
    assert_eq!(link.conversion, ConversionSource::Identity);

    let abst = plan_link_step(
        1,
        3,
        ColorSpace::Lab,
        ProfileClass::Abstract,
        ColorSpace::Lab,
        ColorSpace::Lab,
    )
    .unwrap();
    assert_eq!(abst.direction, LutDirection::DeviceLink);
    assert_eq!(abst.conversion, ConversionSource::Computed);

    let named = plan_link_step(
        0,
        1,
        ColorSpace::Named,
        ProfileClass::NamedColor,
        ColorSpace::Named,
        ColorSpace::Lab,
    )
    .unwrap();
    assert_eq!(named.direction, LutDirection::DeviceLink);

    assert!(matches!(
        plan_link_step(
            1,
            2,
            ColorSpace::Rgb,
            ProfileClass::Output,
            ColorSpace::Cmyk,
            ColorSpace::Lab,
        ),
        Err(Error::Corrupt(_))
    ));
    assert_eq!(check_output_width(ColorSpace::Named, 9), Ok(()));
}

#[test]
fn device_formats() {
    assert_eq!(device_format(ColorSpace::Gray), Some((TYPE_GRAY_8, 1)));
    assert_eq!(device_format(ColorSpace::Rgb), Some((TYPE_RGB_8, 3)));
    assert_eq!(device_format(ColorSpace::Cmyk), Some((TYPE_CMYK_8, 4)));
    assert_eq!(device_format(ColorSpace::Lab), None);
    assert_eq!(TYPE_RGB_8, (4 << 16) | (3 << 3) | 1);
}

fn header_only(class: &[u8; 4], space: &[u8; 4], pcs: &[u8; 4]) -> Vec<u8> {
    let mut buf = vec![0u8; 132];
    buf[0..4].copy_from_slice(&132u32.to_be_bytes());
    buf[8] = 4;
    buf[12..16].copy_from_slice(class);
    buf[16..20].copy_from_slice(space);
    buf[20..24].copy_from_slice(pcs);
    buf[36..40].copy_from_slice(b"acsp");
    buf
}

#[test]
fn chain_plan_threads_the_current_space() {
    let rgb = header_only(b"mntr", b"RGB ", b"XYZ ");
    let cmyk = header_only(b"prtr", b"CMYK", b"Lab ");
    let p0 = Profile::open(&rgb).unwrap();
    let p1 = Profile::open(&cmyk).unwrap();
    let plan = plan_chain(&[&p0, &p1]).unwrap();
    assert!(plan.failure.is_none());
    assert_eq!(plan.steps.len(), 2);
    assert_eq!(plan.steps[0].direction, LutDirection::Input);
    assert_eq!(plan.steps[1].direction, LutDirection::Output);
    assert_eq!(plan.steps[1].color_space_in, ColorSpace::Lab);
    assert_eq!(plan.steps[1].color_space_out, ColorSpace::Cmyk);

    // With the data now in CMYK, the same printer profile is met in the input
    // direction and takes the chain back to its PCS.
    let plan2 = plan_chain(&[&p0, &p1, &p1]).unwrap();
    assert!(plan2.failure.is_none());
    assert_eq!(plan2.steps.len(), 3);
    assert_eq!(plan2.steps[2].direction, LutDirection::Input);
    assert_eq!(plan2.steps[2].color_space_in, ColorSpace::Cmyk);
    assert_eq!(plan2.steps[2].color_space_out, ColorSpace::Lab);
}

#[test]
fn chain_plan_of_nothing_is_out_of_range() {
    assert_eq!(plan_chain(&[]).unwrap_err(), Error::Range);
}

#[test]
fn chain_plan_stops_at_first_mismatch() {
    let rgb = header_only(b"mntr", b"RGB ", b"XYZ ");
    let gray_link = header_only(b"link", b"GRAY", b"GRAY");
    let p0 = Profile::open(&rgb).unwrap();
    let p1 = Profile::open(&gray_link).unwrap();
    let plan = plan_chain(&[&p0, &p1, &p0]).unwrap();
    assert_eq!(plan.steps.len(), 1);
    assert!(matches!(plan.failure, Some(Error::Corrupt(_))));
}
