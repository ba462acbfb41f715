use rcms::error::Error;
use rcms::io::MemReader;
use rcms::profile::tag::{CurveData, Tag};
use rcms::profile::types::curve::{read_curve, read_parametric_curve};

fn u8f8(raw: u16) -> f64 {
    raw as f64 / 256.0
}

fn s15f16(raw: i32) -> f64 {
    raw as f64 / 65536.0
}

/// `Count == 0` is the identity (exponent 1.0) linear curve.
#[test]
fn curve_count0_is_identity() {
    let body = 0u32.to_be_bytes();
    let mut r = MemReader::new(&body);
    match read_curve(&mut r, body.len() as u32).unwrap() {
        Tag::Curve(CurveData::Gamma(g)) => assert_eq!(u8f8(g.to_raw()), 1.0),
        other => panic!("expected Curve, got {other:?}"),
    }
}

/// `Count == 1`: one exponent stored as 8.8 fixed; `0x0240` is 2.25.
#[test]
fn curve_count1_single_gamma() {
    let mut body = Vec::new();
    body.extend_from_slice(&1u32.to_be_bytes());
    body.extend_from_slice(&0x0240u16.to_be_bytes());
    let mut r = MemReader::new(&body);
    match read_curve(&mut r, body.len() as u32).unwrap() {
        Tag::Curve(CurveData::Gamma(g)) => {
            assert_eq!(u8f8(g.to_raw()), 2.25);
            assert_eq!(g.to_raw(), 0x0240);
        }
        other => panic!("expected Curve, got {other:?}"),
    }
}

/// `Count > 1`: a 16-bit table copying the stored samples verbatim.
#[test]
fn curve_count_n_tabulated() {
    let table: [u16; 4] = [0, 0x5555, 0xAAAA, 0xFFFF];
    let mut body = Vec::new();
    body.extend_from_slice(&(table.len() as u32).to_be_bytes());
    for v in table {
        body.extend_from_slice(&v.to_be_bytes());
    }
    let mut r = MemReader::new(&body);
    match read_curve(&mut r, body.len() as u32).unwrap() {
        Tag::Curve(CurveData::Tabulated(t)) => assert_eq!(t, table.to_vec()),
        other => panic!("expected Curve, got {other:?}"),
    }
}

/// `Count > 0x7FFF` is rejected.
#[test]
fn curve_count_too_large_rejected() {
    let body = 0x8000u32.to_be_bytes();
    let mut r = MemReader::new(&body);
    assert!(matches!(
        read_curve(&mut r, body.len() as u32),
        Err(Error::Corrupt(_))
    ));
}

/// `para` ICC type 0 is function 1 with one s15Fixed16 parameter: 2.0.
#[test]
fn parametric_type0_gamma() {
    let mut body = Vec::new();
    body.extend_from_slice(&0u16.to_be_bytes());
    body.extend_from_slice(&0u16.to_be_bytes());
    body.extend_from_slice(&0x0002_0000u32.to_be_bytes());
    let mut r = MemReader::new(&body);
    match read_parametric_curve(&mut r, body.len() as u32).unwrap() {
        Tag::Curve(CurveData::Parametric { curve_type, params }) => {
            assert_eq!(curve_type, 1);
            let p: Vec<f64> = params.iter().map(|p| s15f16(p.to_raw())).collect();
            assert_eq!(p, vec![2.0]);
        }
        other => panic!("expected Curve, got {other:?}"),
    }
}

/// `para` ICC type 3 is function 4 with five parameters.
#[test]
fn parametric_type3_params() {
    let raws: [u32; 5] = [0x0002_0000, 0x0000_8000, 0x0000_4000, 0x0000_2000, 0x0000_1000];
    let mut body = Vec::new();
    body.extend_from_slice(&3u16.to_be_bytes());
    body.extend_from_slice(&0u16.to_be_bytes());
    for raw in raws {
        body.extend_from_slice(&raw.to_be_bytes());
    }
    let mut r = MemReader::new(&body);
    match read_parametric_curve(&mut r, body.len() as u32).unwrap() {
        Tag::Curve(CurveData::Parametric { curve_type, params }) => {
            assert_eq!(curve_type, 4);
            let p: Vec<f64> = params.iter().map(|p| s15f16(p.to_raw())).collect();
            assert_eq!(p, vec![2.0, 0.5, 0.25, 0.125, 0.0625]);
        }
        other => panic!("expected Curve, got {other:?}"),
    }
}

/// ICC parametric type above 4 is rejected.
#[test]
fn parametric_unknown_type_rejected() {
    let mut body = Vec::new();
    body.extend_from_slice(&5u16.to_be_bytes());
    body.extend_from_slice(&0u16.to_be_bytes());
    let mut r = MemReader::new(&body);
    assert!(matches!(
        read_parametric_curve(&mut r, body.len() as u32),
        Err(Error::Corrupt(_))
    ));
}

#[test]
fn curve_truncated_table_is_truncated() {
    let mut body = Vec::new();
    body.extend_from_slice(&3u32.to_be_bytes());
    body.extend_from_slice(&0x1234u16.to_be_bytes());
    let mut r = MemReader::new(&body);
    assert_eq!(read_curve(&mut r, 0), Err(Error::Truncated));
}

#[test]
fn curve_empty_body_is_truncated() {
    let mut r = MemReader::new(&[0u8, 0]);
    assert_eq!(read_curve(&mut r, 0), Err(Error::Truncated));
}

#[test]
fn curve_largest_table_accepted_and_consumed() {
    let mut body = Vec::new();
    body.extend_from_slice(&0x7FFFu32.to_be_bytes());
    for k in 0..0x7FFFu32 {
        body.extend_from_slice(&((k * 2) as u16).to_be_bytes());
    }
    body.push(0xEE);
    let mut r = MemReader::new(&body);
    match read_curve(&mut r, 0).unwrap() {
        Tag::Curve(CurveData::Tabulated(t)) => {
            assert_eq!(t.len(), 0x7FFF);
            assert_eq!(t[1], 2);
            assert_eq!(t[0x7FFE], 0xFFFC);
        }
        other => panic!("expected table, got {other:?}"),
    }
    assert_eq!(r.position(), 4 + 2 * 0x7FFF);
}

#[test]
fn parametric_negative_parameter_is_signed() {
    let mut body = Vec::new();
    body.extend_from_slice(&1u16.to_be_bytes());
    body.extend_from_slice(&0u16.to_be_bytes());
    for raw in [0xFFFF_0000u32, 0x0001_0000, 0x8000_0000] {
        body.extend_from_slice(&raw.to_be_bytes());
    }
    let mut r = MemReader::new(&body);
    match read_parametric_curve(&mut r, 0).unwrap() {
        Tag::Curve(CurveData::Parametric { curve_type, params }) => {
            assert_eq!(curve_type, 2);
            let raw: Vec<i32> = params.iter().map(|p| p.to_raw()).collect();
            assert_eq!(raw, vec![-65536, 65536, i32::MIN]);
        }
        other => panic!("expected Curve, got {other:?}"),
    }
}

#[test]
fn parametric_missing_parameters_is_truncated() {
    let mut body = Vec::new();
    body.extend_from_slice(&4u16.to_be_bytes());
    body.extend_from_slice(&0u16.to_be_bytes());
    for _ in 0..6 {
        body.extend_from_slice(&0x0001_0000u32.to_be_bytes());
    }
    let mut r = MemReader::new(&body);
    assert_eq!(read_parametric_curve(&mut r, 0), Err(Error::Truncated));
}

#[test]
fn parametric_type_checked_before_parameters() {
    // A type above 4 is rejected even when the body is long enough for anything.
    let mut body = vec![0u8, 9, 0, 0];
    body.extend_from_slice(&[0u8; 64]);
    let mut r = MemReader::new(&body);
    assert!(matches!(read_parametric_curve(&mut r, 0), Err(Error::Corrupt(_))));
}

#[test]
fn failed_reads_consume_only_whole_fields() {
    // Table cut short: the count was read, nothing of the table.
    let mut body = Vec::new();
    body.extend_from_slice(&3u32.to_be_bytes());
    body.extend_from_slice(&0x1234u16.to_be_bytes());
    let mut r = MemReader::new(&body);
    assert!(read_curve(&mut r, 0).is_err());
    assert_eq!(r.position(), 4);

    // Count too large: only the count is consumed.
    let body = 0x8000u32.to_be_bytes();
    let mut r = MemReader::new(&body);
    assert!(read_curve(&mut r, 0).is_err());
    assert_eq!(r.position(), 4);

    // Parametric type 4 needs seven coefficients; six whole ones are read.
    let mut body = Vec::new();
    body.extend_from_slice(&4u16.to_be_bytes());
    body.extend_from_slice(&0u16.to_be_bytes());
    for _ in 0..6 {
        body.extend_from_slice(&0x0001_0000u32.to_be_bytes());
    }
    body.extend_from_slice(&[1, 2, 3]);
    let mut r = MemReader::new(&body);
    assert!(read_parametric_curve(&mut r, 0).is_err());
    assert_eq!(r.position(), 28);

    // Only the type field present: it is read, the reserved field is not.
    let mut r = MemReader::new(&[0u8, 1, 0]);
    assert!(read_parametric_curve(&mut r, 0).is_err());
    assert_eq!(r.position(), 2);
}

#[test]
fn size_argument_does_not_matter() {
    let mut body = Vec::new();
    body.extend_from_slice(&2u32.to_be_bytes());
    body.extend_from_slice(&[0, 1, 0, 2, 9]);
    let mut r1 = MemReader::new(&body);
    let mut r2 = MemReader::new(&body);
    assert_eq!(read_curve(&mut r1, 0), read_curve(&mut r2, 0xFFFF_FFFF));
    assert_eq!(r1.position(), r2.position());
    assert_eq!(r1.position(), 8);
}
