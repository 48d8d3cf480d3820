use raw_inspect::encode::{encode_pgm16, encode_ppm16, encode_ppm8};
use raw_inspect::error::AnalyzeError;

/// A conforming reader for the binary 16-bit rasters: magic token, three
/// decimal header fields, then big-endian 16-bit samples.
fn read_raster16(bytes: &[u8], magic: u8) -> (usize, usize, usize, Vec<u16>) {
    assert_eq!(bytes[0], b'P');
    assert_eq!(bytes[1], magic);
    assert_eq!(bytes[2], b' ');
    let mut i = 3;
    let mut fields: Vec<usize> = Vec::new();
    for _ in 0..3 {
        let mut v: usize = 0;
        while bytes[i] != b' ' && bytes[i] != b'\n' {
            assert!(bytes[i].is_ascii_digit());
            v = v * 10 + (bytes[i] - b'0') as usize;
            i += 1;
        }
        i += 1;
        fields.push(v);
    }
    let mut samples: Vec<u16> = Vec::new();
    while i < bytes.len() {
        samples.push(((bytes[i] as u16) << 8) | bytes[i + 1] as u16);
        i += 2;
    }
    (fields[0], fields[1], fields[2], samples)
}

/// A conforming reader for the binary 8-bit raster.
fn read_raster8(bytes: &[u8]) -> (usize, usize, usize, Vec<u8>) {
    assert_eq!(bytes[0], b'P');
    assert_eq!(bytes[1], b'6');
    assert_eq!(bytes[2], b' ');
    let mut i = 3;
    let mut fields: Vec<usize> = Vec::new();
    for _ in 0..3 {
        let mut v: usize = 0;
        while bytes[i] != b' ' && bytes[i] != b'\n' {
            assert!(bytes[i].is_ascii_digit());
            v = v * 10 + (bytes[i] - b'0') as usize;
            i += 1;
        }
        i += 1;
        fields.push(v);
    }
    (fields[0], fields[1], fields[2], bytes[i..].to_vec())
}

#[test]
fn pgm16_exact_bytes() {
    let samples: Vec<u16> = vec![0, 1, 256, 65535];
    let out = encode_pgm16(2, 2, &samples).unwrap();
    let mut expected = b"P5 2 2 65535\n".to_vec();
    expected.extend_from_slice(&[0, 0, 0, 1, 1, 0, 255, 255]);
    assert_eq!(out, expected);
}

#[test]
fn ppm16_exact_bytes() {
    let samples: Vec<u16> = vec![1, 2, 3];
    let out = encode_ppm16(1, 1, &samples).unwrap();
    let mut expected = b"P6 1 1 65535\n".to_vec();
    expected.extend_from_slice(&[0, 1, 0, 2, 0, 3]);
    assert_eq!(out, expected);
}

#[test]
fn ppm8_exact_bytes() {
    let samples: Vec<u8> = vec![10, 20, 30, 40, 50, 60];
    let out = encode_ppm8(2, 1, &samples).unwrap();
    let mut expected = b"P6 2 1 255\n".to_vec();
    expected.extend_from_slice(&samples);
    assert_eq!(out, expected);
}

#[test]
fn pgm16_roundtrip() {
    let samples: Vec<u16> = vec![5, 1000, 40000, 65535, 0, 123];
    let out = encode_pgm16(3, 2, &samples).unwrap();
    let (w, h, maxval, parsed) = read_raster16(&out, b'5');
    assert_eq!(w, 3);
    assert_eq!(h, 2);
    assert_eq!(maxval, 65535);
    assert_eq!(parsed, samples);
}

#[test]
fn ppm16_roundtrip_keeps_rgb_order() {
    let samples: Vec<u16> = vec![100, 200, 300, 400, 500, 600];
    let out = encode_ppm16(2, 1, &samples).unwrap();
    let (w, h, maxval, parsed) = read_raster16(&out, b'6');
    assert_eq!(w, 2);
    assert_eq!(h, 1);
    assert_eq!(maxval, 65535);
    assert_eq!(parsed, samples);
    assert_eq!(&parsed[0..3], &[100, 200, 300]);
    assert_eq!(&parsed[3..6], &[400, 500, 600]);
}

#[test]
fn ppm8_roundtrip_keeps_rgb_order() {
    let samples: Vec<u8> = vec![1, 2, 3, 4, 5, 6, 7, 8, 9];
    let out = encode_ppm8(1, 3, &samples).unwrap();
    let (w, h, maxval, parsed) = read_raster8(&out);
    assert_eq!(w, 1);
    assert_eq!(h, 3);
    assert_eq!(maxval, 255);
    assert_eq!(parsed, samples);
}

#[test]
fn pgm16_rejects_wrong_sample_count() {
    let samples: Vec<u16> = vec![1, 2, 3];
    let r = encode_pgm16(2, 2, &samples);
    assert!(matches!(r, Err(AnalyzeError::InvariantViolation(_))));
}

#[test]
fn ppm16_rejects_wrong_sample_count() {
    let samples: Vec<u16> = vec![1, 2, 3, 4];
    let r = encode_ppm16(1, 1, &samples);
    assert!(matches!(r, Err(AnalyzeError::InvariantViolation(_))));
}

#[test]
fn ppm8_rejects_wrong_sample_count() {
    let samples: Vec<u8> = vec![1, 2, 3, 4];
    let r = encode_ppm8(1, 1, &samples);
    assert!(matches!(r, Err(AnalyzeError::InvariantViolation(_))));
}
