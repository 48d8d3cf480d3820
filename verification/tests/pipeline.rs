use raw_inspect::dispatch::{process, render_record, EngineOutput, Rendered};
use raw_inspect::error::AnalyzeError;
use raw_inspect::hexline::checksum_line;
use raw_inspect::mode::{select_mode, ExtractionMode, OutputStyle};
use rawler::analyze::AnalyzerResult;
use rawler::decoders::Camera;
use rawler::rawimage::{BlackLevel, RawPhotometricInterpretation, WhiteLevel};
use rawler::{RawImage, RawImageData};

fn integer_raw_image(width: usize, height: usize, cpp: usize, data: Vec<u16>) -> RawImage {
    RawImage::new_with_data(
        Camera::default(),
        RawImageData::Integer(data),
        width * cpp,
        height,
        cpp,
        [1.0, 1.0, 1.0, 1.0],
        RawPhotometricInterpretation::LinearRaw,
        Some(BlackLevel::zero(1, 1, cpp)),
        Some(WhiteLevel(vec![65535; cpp])),
        false,
    )
}

#[test]
fn select_mode_each_flag() {
    let m = select_mode(true, false, false, false, false, false, false, false);
    assert_eq!(m, Some(ExtractionMode::Metadata));
    let m = select_mode(false, true, false, false, false, false, false, false);
    assert_eq!(m, Some(ExtractionMode::FileStructure));
    let m = select_mode(false, false, true, false, false, false, false, false);
    assert_eq!(m, Some(ExtractionMode::RawChecksum));
    let m = select_mode(false, false, false, true, false, false, false, false);
    assert_eq!(m, Some(ExtractionMode::RawPixels));
    let m = select_mode(false, false, false, false, true, false, false, false);
    assert_eq!(m, Some(ExtractionMode::PreviewPixels));
    let m = select_mode(false, false, false, false, false, true, false, false);
    assert_eq!(m, Some(ExtractionMode::ThumbnailPixels));
    let m = select_mode(false, false, false, false, false, false, true, false);
    assert_eq!(m, Some(ExtractionMode::FullPixels));
    let m = select_mode(false, false, false, false, false, false, false, true);
    assert_eq!(m, Some(ExtractionMode::RenderedSrgb));
}

#[test]
fn select_mode_first_match_and_none() {
    let m = select_mode(true, false, false, false, false, false, false, true);
    assert_eq!(m, Some(ExtractionMode::Metadata));
    let m = select_mode(false, false, false, false, false, false, false, false);
    assert_eq!(m, None);
}

#[test]
fn checksum_line_known_value() {
    let digest: Vec<u8> = vec![0x00, 0xff, 0x10, 0xab];
    let line = checksum_line(&digest);
    assert_eq!(line, "00ff10ab\n");
}

#[test]
fn checksum_line_matches_hex_crate() {
    let digest: Vec<u8> = (0..=255u8).collect();
    let line = checksum_line(&digest);
    let expected = format!("{}\n", hex::encode(&digest));
    assert_eq!(line, expected);
}

#[test]
fn checksum_line_deterministic() {
    let digest: Vec<u8> = vec![1, 2, 3, 4, 5, 6, 7, 8, 9, 10, 11, 12, 13, 14, 15, 16];
    assert_eq!(checksum_line(&digest), checksum_line(&digest));
}

#[test]
fn process_checksum_is_one_hex_line() {
    let digest: Vec<u8> = vec![0xde, 0xad, 0xbe, 0xef, 0x00, 0x11, 0x22, 0x33,
                               0x44, 0x55, 0x66, 0x77, 0x88, 0x99, 0xaa, 0xbb];
    let r = process(
        ExtractionMode::RawChecksum,
        OutputStyle::Json,
        EngineOutput::Digest(digest.clone()),
    );
    match r {
        Ok(Rendered::Text(line)) => {
            assert_eq!(line.len(), 2 * digest.len() + 1);
            assert!(line.ends_with('\n'));
            let body = &line[..line.len() - 1];
            assert!(body.chars().all(|c| c.is_ascii_hexdigit() && !c.is_ascii_uppercase()));
            assert_eq!(body, hex::encode(&digest));
        }
        other => panic!("unexpected result: {:?}", other.map(|_| ()).err()),
    }
}

#[test]
fn process_raw_pixels_one_channel() {
    let data: Vec<u16> = vec![0, 1000, 2000, 65535];
    let img = integer_raw_image(2, 2, 1, data.clone());
    let r = process(ExtractionMode::RawPixels, OutputStyle::Json, EngineOutput::Raw(img));
    match r {
        Ok(Rendered::Bytes(bytes)) => {
            let header = b"P5 2 2 65535\n";
            assert_eq!(&bytes[..header.len()], header);
            assert_eq!(bytes.len(), header.len() + 2 * 2 * 2);
            let mut expected = header.to_vec();
            for px in &data {
                expected.push((px >> 8) as u8);
                expected.push((px & 0xff) as u8);
            }
            assert_eq!(bytes, expected);
        }
        _ => panic!("raw pixel dump failed"),
    }
}

#[test]
fn process_raw_pixels_three_channels() {
    let data: Vec<u16> = vec![10, 20, 30, 40, 50, 60];
    let img = integer_raw_image(2, 1, 3, data.clone());
    let r = process(ExtractionMode::RawPixels, OutputStyle::Json, EngineOutput::Raw(img));
    match r {
        Ok(Rendered::Bytes(bytes)) => {
            let header = b"P6 2 1 65535\n";
            assert_eq!(&bytes[..header.len()], header);
            assert_eq!(bytes.len(), header.len() + 2 * data.len());
        }
        _ => panic!("raw pixel dump failed"),
    }
}

#[test]
fn process_rgb8_exact() {
    let samples: Vec<u8> = vec![9, 8, 7, 6, 5, 4];
    let r = process(
        ExtractionMode::PreviewPixels,
        OutputStyle::Json,
        EngineOutput::Rgb8 { width: 2, height: 1, samples: samples.clone() },
    );
    match r {
        Ok(Rendered::Bytes(bytes)) => {
            let mut expected = b"P6 2 1 255\n".to_vec();
            expected.extend_from_slice(&samples);
            assert_eq!(bytes, expected);
        }
        _ => panic!("preview dump failed"),
    }
}

#[test]
fn process_rgb8_wrong_count_is_invariant_violation() {
    let r = process(
        ExtractionMode::ThumbnailPixels,
        OutputStyle::Json,
        EngineOutput::Rgb8 { width: 2, height: 2, samples: vec![1, 2, 3] },
    );
    assert!(matches!(r, Err(AnalyzeError::InvariantViolation(_))));
}

#[test]
fn process_rgb16_exact() {
    let samples: Vec<u16> = vec![256, 512, 768];
    let r = process(
        ExtractionMode::RenderedSrgb,
        OutputStyle::Json,
        EngineOutput::Rgb16 { width: 1, height: 1, samples: samples.clone() },
    );
    match r {
        Ok(Rendered::Bytes(bytes)) => {
            let mut expected = b"P6 1 1 65535\n".to_vec();
            expected.extend_from_slice(&[1, 0, 2, 0, 3, 0]);
            assert_eq!(bytes, expected);
        }
        _ => panic!("rendered dump failed"),
    }
}

#[test]
fn process_mismatched_output_is_invariant_violation() {
    let r = process(
        ExtractionMode::RawChecksum,
        OutputStyle::Json,
        EngineOutput::Record(AnalyzerResult::default()),
    );
    assert!(matches!(r, Err(AnalyzeError::InvariantViolation(_))));
}

#[test]
fn describe_names_each_failure_kind() {
    let cases = vec![
        (AnalyzeError::Decode(String::from("a")), "decode failure: a"),
        (AnalyzeError::Scaling(String::from("b")), "scaling failure: b"),
        (AnalyzeError::Serialization(String::from("c")), "serialization failure: c"),
        (AnalyzeError::Io(String::from("d")), "output failure: d"),
        (AnalyzeError::InvariantViolation(String::from("e")), "internal invariant violation: e"),
        (AnalyzeError::Unsupported(String::from("f")), "unsupported configuration: f"),
    ];
    for (err, expected) in cases {
        assert_eq!(err.describe(), expected);
    }
}

#[test]
fn render_record_json_roundtrip() {
    let rec = AnalyzerResult::default();
    let text = render_record(&rec, OutputStyle::Json).unwrap();
    assert!(text.ends_with('\n'));
    let back: AnalyzerResult = serde_json::from_str(&text).unwrap();
    assert_eq!(back, rec);
}

#[test]
fn render_record_styles_agree() {
    let rec = AnalyzerResult::default();
    let json_text = render_record(&rec, OutputStyle::Json).unwrap();
    let yaml_text = render_record(&rec, OutputStyle::Yaml).unwrap();
    let from_json: AnalyzerResult = serde_json::from_str(&json_text).unwrap();
    let from_yaml: AnalyzerResult = serde_yaml::from_str(&yaml_text).unwrap();
    assert_eq!(from_json, rec);
    assert_eq!(from_yaml, rec);
    assert_eq!(from_json, from_yaml);
}
