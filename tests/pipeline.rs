use png2jpeg::job::{after_decode, step, Action, Event, Failure, Outcome, Stage};
use png2jpeg::pixels::{decode, DecodeError, PixelBuffer};
use png2jpeg::quality::{is_encodable_size, Quality};
use png2jpeg::summary::RunSummary;

fn png_bytes(w: u32, h: u32, color: png::ColorType, data: &[u8]) -> Vec<u8> {
    let mut out = Vec::new();
    {
        let mut enc = png::Encoder::new(&mut out, w, h);
        enc.set_color(color);
        enc.set_depth(png::BitDepth::Eight);
        let mut writer = enc.write_header().unwrap();
        writer.write_image_data(data).unwrap();
        writer.finish().unwrap();
    }
    out
}

fn q(v: f32) -> Quality {
    Quality::from_bits(v.to_bits())
}

/// Drives one file through its steps, with `present` as the probe's answer,
/// `bytes` as what is read, and the encoder and writer succeeding.
fn run_file(present: bool, bytes: Vec<u8>, quality: Quality) -> (Outcome, Vec<&'static str>) {
    let mut actions = Vec::new();
    let (mut stage, mut action) = step(Stage::Discovered, Event::DestinationChecked(present), quality);
    let mut bytes = Some(bytes);
    loop {
        match action {
            Action::Nothing => {
                actions.push("nothing");
                match stage {
                    Stage::Finished(o) => return (o, actions),
                    _ => panic!("stalled"),
                }
            }
            Action::ReadSource => {
                actions.push("read");
                let r = step(stage, Event::SourceRead(Ok(bytes.take().unwrap())), quality);
                stage = r.0;
                action = r.1;
            }
            Action::EncodeAndWrite(p, qq) => {
                actions.push("encode");
                assert_eq!(qq, quality);
                assert_eq!(p.rgb.len() as u64, p.width as u64 * p.height as u64 * 3);
                let r = step(stage, Event::Written, quality);
                stage = r.0;
                action = r.1;
            }
            Action::RemoveOutput => {
                actions.push("remove");
                match stage {
                    Stage::Finished(o) => return (o, actions),
                    _ => panic!("removal before the end"),
                }
            }
        }
    }
}

fn tree() -> Vec<(&'static str, Vec<u8>)> {
    let a = png_bytes(10, 10, png::ColorType::Rgb, &[50u8; 300]);
    let b = png_bytes(5, 5, png::ColorType::Rgba, &[60u8; 100]);
    let c = vec![0xde, 0xad, 0xbe, 0xef, 1, 2, 3];
    vec![("a.png", a), ("b.png", b), ("sub/c.png", c)]
}

#[test]
fn first_run_converts_two_and_fails_one() {
    let mut summary = RunSummary::new();
    for (name, bytes) in tree() {
        let (o, actions) = run_file(false, bytes, q(80.0));
        if name == "sub/c.png" {
            assert_eq!(actions, vec!["read", "remove"]);
        } else {
            assert_eq!(actions, vec!["read", "encode", "nothing"]);
        }
        summary.record(name.to_string(), o);
    }
    assert_eq!(summary.succeeded(), 2);
    assert_eq!(summary.skipped(), 0);
    assert_eq!(summary.failed(), 1);
    assert_eq!(summary.processed(), 3);
    let errors = summary.errors();
    assert_eq!(errors.len(), 1);
    assert_eq!(errors[0].0, "sub/c.png");
    assert!(matches!(errors[0].1, Failure::Decode(DecodeError::Malformed(_))));
}

#[test]
fn second_run_skips_what_the_first_wrote() {
    let mut summary = RunSummary::new();
    for (name, bytes) in tree() {
        let written = name != "sub/c.png";
        let (o, actions) = run_file(written, bytes, q(80.0));
        if written {
            assert_eq!(o, Outcome::Skipped);
            assert_eq!(actions, vec!["nothing"]);
        }
        summary.record(name.to_string(), o);
    }
    assert_eq!(summary.processed(), 3);
    assert_eq!(summary.skipped(), 2);
    assert_eq!(summary.succeeded(), 0);
    assert_eq!(summary.failed(), 1);
    assert_eq!(summary.errors()[0].0, "sub/c.png");
}

#[test]
fn out_of_range_quality_fails_every_file() {
    for bad in [0.0f32, 0.5, 100.5, -3.0, f32::NAN, f32::INFINITY] {
        for (_, bytes) in tree() {
            let (o, actions) = run_file(false, bytes, q(bad));
            assert!(matches!(o, Outcome::Failed(_)));
            assert_eq!(actions, vec!["read", "remove"]);
        }
    }
}

#[test]
fn quality_bounds_are_inclusive() {
    assert!(q(1.0).is_in_range());
    assert!(q(80.0).is_in_range());
    assert!(q(100.0).is_in_range());
    assert!(q(73.25).is_in_range());
    assert!(!q(0.99).is_in_range());
    assert!(!q(-0.0).is_in_range());
    assert!(!q(100.01).is_in_range());
}

#[test]
fn invalid_quality_is_reported_as_such() {
    let p = PixelBuffer { width: 1, height: 1, rgb: vec![1, 2, 3] };
    let (s, a) = after_decode(Ok(p), q(150.0));
    assert!(matches!(a, Action::RemoveOutput));
    assert!(matches!(s, Stage::Finished(Outcome::Failed(Failure::InvalidQuality(x))) if x == q(150.0)));
}

#[test]
fn oversized_image_is_refused_before_encoding() {
    assert!(is_encodable_size(65500, 1));
    assert!(!is_encodable_size(65501, 1));
    assert!(!is_encodable_size(0, 4));
    let p = PixelBuffer { width: 0, height: 4, rgb: vec![] };
    let (s, a) = after_decode(Ok(p), q(80.0));
    assert!(matches!(a, Action::RemoveOutput));
    assert!(matches!(s, Stage::Finished(Outcome::Failed(Failure::UnencodableSize(0, 4)))));
}

#[test]
fn decoded_pixels_go_to_the_encoder_unchanged() {
    let bytes = png_bytes(2, 1, png::ColorType::Rgb, &[1, 2, 3, 4, 5, 6]);
    let (s, a) = after_decode(decode(&bytes), q(77.5));
    assert!(matches!(s, Stage::Encoding));
    match a {
        Action::EncodeAndWrite(p, qq) => {
            assert_eq!(p.rgb, vec![1, 2, 3, 4, 5, 6]);
            assert_eq!(qq.bits, 77.5f32.to_bits());
        }
        _ => panic!("expected an encode"),
    }
}

#[test]
fn read_encode_and_write_failures_remove_the_output() {
    let (s, a) = step(Stage::Reading, Event::SourceRead(Err("denied".to_string())), q(80.0));
    assert!(matches!(a, Action::RemoveOutput));
    assert!(matches!(s, Stage::Finished(Outcome::Failed(Failure::Read(ref m))) if m == "denied"));
    let (s, a) = step(Stage::Encoding, Event::EncodeFailed("boom".to_string()), q(80.0));
    assert!(matches!(a, Action::RemoveOutput));
    assert!(matches!(s, Stage::Finished(Outcome::Failed(Failure::Encode(_)))));
    let (s, a) = step(Stage::Encoding, Event::WriteFailed("full".to_string()), q(80.0));
    assert!(matches!(a, Action::RemoveOutput));
    assert!(matches!(s, Stage::Finished(Outcome::Failed(Failure::Write(_)))));
}

#[test]
fn unfitting_report_changes_nothing() {
    let (s, a) = step(Stage::Discovered, Event::Written, q(80.0));
    assert!(matches!(s, Stage::Discovered));
    assert!(matches!(a, Action::Nothing));
    let (s, a) = step(Stage::Finished(Outcome::Succeeded), Event::DestinationChecked(false), q(80.0));
    assert!(matches!(s, Stage::Finished(Outcome::Succeeded)));
    assert!(matches!(a, Action::Nothing));
}

#[test]
fn empty_run_counts_nothing() {
    let s = RunSummary::new();
    assert_eq!(s.processed(), 0);
    assert!(s.errors().is_empty());
}

#[test]
fn failure_descriptions_are_readable() {
    assert_eq!(Failure::Read("no such file".to_string()).describe(), "no such file");
    assert!(Failure::InvalidQuality(q(0.0)).describe().contains("quality"));
    assert!(Failure::Decode(DecodeError::UnsupportedDepth(16)).describe().contains("bit depth"));
}
