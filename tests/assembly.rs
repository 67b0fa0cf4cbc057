use video_crop::command::{assemble_args, assemble_args_lowered, assemble_command, clamp_trim};
use video_crop::format::FormatKind;
use video_crop::geometry::{build_filter, make_even, normalize_crop, normalize_geometry, NormalizedGeometry};
use video_crop::locator::EncoderLocation;
use video_crop::request::{CropError, CropRect, CropRequest, GeometryPart, OutputSettings, TrimRange};
use video_crop::text::{decimal_string, seconds_text};

fn request(format: &str, trim: Option<TrimRange>) -> CropRequest {
    CropRequest {
        input_path: "in.mp4".to_string(),
        output_path: "out.file".to_string(),
        crop: CropRect { x: 10, y: 10, width: 100, height: 50 },
        output: OutputSettings { width: 200, height: 150, format: format.to_string() },
        trim,
    }
}

fn strs(v: &[String]) -> Vec<&str> {
    v.iter().map(|s| s.as_str()).collect()
}

const FILTER: &str = "crop=w=min(100\\,in_w):h=min(50\\,in_h):x=min(max(10\\,0)\\,in_w-min(100\\,in_w)):y=min(max(10\\,0)\\,in_h-min(50\\,in_h)),scale=200:150";

#[test]
fn make_even_small_values_become_two() {
    assert_eq!(make_even(0), 2);
    assert_eq!(make_even(1), 2);
    assert_eq!(make_even(2), 2);
}

#[test]
fn make_even_rounds_down() {
    assert_eq!(make_even(3), 2);
    assert_eq!(make_even(7), 6);
    assert_eq!(make_even(8), 8);
    assert_eq!(make_even(101), 100);
    assert_eq!(make_even(u32::MAX), u32::MAX - 1);
}

#[test]
fn make_even_is_idempotent() {
    for v in 0..1000u32 {
        assert_eq!(make_even(make_even(v)), make_even(v));
    }
    assert_eq!(make_even(make_even(u32::MAX)), make_even(u32::MAX));
}

#[test]
fn normalize_crop_coerces_every_value() {
    let c = normalize_crop(&CropRect { x: 0, y: 5, width: 1, height: 33 });
    assert_eq!(c, CropRect { x: 2, y: 4, width: 2, height: 32 });
}

#[test]
fn degenerate_sizes_never_fail_geometry() {
    let out = OutputSettings { width: 0, height: 1, format: "mp4".to_string() };
    let g = normalize_geometry(&CropRect { x: 0, y: 0, width: 0, height: 0 }, &out).unwrap();
    assert_eq!(g.crop, CropRect { x: 2, y: 2, width: 2, height: 2 });
    assert_eq!((g.out_width, g.out_height), (2, 2));
}

#[test]
fn filter_expression_is_clamped_at_run_time() {
    let g = NormalizedGeometry { crop: CropRect { x: 10, y: 10, width: 100, height: 50 }, out_width: 200, out_height: 150 };
    let f = build_filter(&g);
    assert_eq!(f, FILTER);
    assert!(f.contains("min(100\\,in_w)"));
    assert!(f.contains("min(max(10\\,0)\\,in_w-min(100\\,in_w))"));
    assert!(f.contains("in_h-min(50\\,in_h)"));
    assert!(f.ends_with(",scale=200:150"));
}

#[test]
fn filter_uses_normalized_values() {
    let req = CropRequest {
        crop: CropRect { x: 11, y: 1, width: 101, height: 51 },
        output: OutputSettings { width: 201, height: 151, format: "mp4".to_string() },
        ..request("mp4", None)
    };
    let args = assemble_args(&req).unwrap();
    let at = args.iter().position(|a| a == "-vf").unwrap();
    assert_eq!(args[at + 1], "crop=w=min(100\\,in_w):h=min(50\\,in_h):x=min(max(10\\,0)\\,in_w-min(100\\,in_w)):y=min(max(2\\,0)\\,in_h-min(50\\,in_h)),scale=200:150");
}

#[test]
fn decimal_and_seconds_rendering() {
    assert_eq!(decimal_string(0), "0");
    assert_eq!(decimal_string(4096), "4096");
    assert_eq!(decimal_string(u64::MAX), u64::MAX.to_string());
    assert_eq!(seconds_text(2000), "2.000");
    assert_eq!(seconds_text(3000), "3.000");
    assert_eq!(seconds_text(7), "0.007");
    assert_eq!(seconds_text(61_250), "61.250");
}

#[test]
fn reversed_trim_is_rejected() {
    let t = TrimRange { start_ms: 5000, end_ms: 2000 };
    assert_eq!(clamp_trim(&t), (5000, 0));
    assert_eq!(assemble_args(&request("mp4", Some(t))), Err(CropError::InvalidTrim));
}

#[test]
fn empty_trim_is_rejected() {
    let t = TrimRange { start_ms: 1500, end_ms: 1500 };
    assert_eq!(assemble_args(&request("mp4", Some(t))), Err(CropError::InvalidTrim));
    let t = TrimRange { start_ms: -4000, end_ms: -1000 };
    assert_eq!(assemble_args(&request("mp4", Some(t))), Err(CropError::InvalidTrim));
}

#[test]
fn trim_encodes_seek_and_duration() {
    let t = TrimRange { start_ms: 2000, end_ms: 5000 };
    let args = assemble_args(&request("mp4", Some(t))).unwrap();
    assert_eq!(strs(&args[..7]), vec!["-y", "-ss", "2.000", "-i", "in.mp4", "-t", "3.000"]);
}

#[test]
fn negative_trim_start_is_clamped() {
    let t = TrimRange { start_ms: -1000, end_ms: 1500 };
    let args = assemble_args(&request("mp4", Some(t))).unwrap();
    assert_eq!(strs(&args[..7]), vec!["-y", "-ss", "0.000", "-i", "in.mp4", "-t", "1.500"]);
}

#[test]
fn format_match_ignores_case() {
    assert_eq!(FormatKind::from_format("WEBM"), FormatKind::from_format("webm"));
    assert_eq!(FormatKind::from_format("WeBm"), FormatKind::Webm);
    let upper = assemble_args(&request("WEBM", None)).unwrap();
    let lower = assemble_args(&request("webm", None)).unwrap();
    assert_eq!(upper, lower);
    assert_eq!(strs(&upper[9..17]), vec!["-c:v", "libvpx-vp9", "-b:v", "0", "-crf", "32", "-c:a", "libopus"]);
}

#[test]
fn unknown_format_uses_default_codecs() {
    assert_eq!(FormatKind::from_format("xyz"), FormatKind::Standard);
    let args = assemble_args(&request("xyz", None)).unwrap();
    let mp4 = assemble_args(&request("mp4", None)).unwrap();
    assert_eq!(args, mp4);
    assert_eq!(
        strs(&args[9..]),
        vec!["-c:v", "libx264", "-preset", "veryfast", "-crf", "18", "-pix_fmt", "yuv420p", "-c:a", "aac", "out.file"]
    );
}

#[test]
fn avi_codec_set() {
    assert_eq!(FormatKind::from_format("AVI"), FormatKind::Avi);
    assert_eq!(strs(&FormatKind::Avi.args()), vec!["-c:v", "mpeg4", "-q:v", "3", "-c:a", "mp3"]);
}

#[test]
fn lowered_dispatch_is_exact() {
    assert_eq!(FormatKind::from_lowered("mov"), FormatKind::Mov);
    assert_eq!(FormatKind::from_lowered("MOV"), FormatKind::Standard);
    assert_eq!(FormatKind::from_lowered(""), FormatKind::Standard);
    assert_eq!(FormatKind::from_lowered("webmx"), FormatKind::Standard);
    let args = assemble_args_lowered(&request("ignored", None), "avi").unwrap();
    assert_eq!(strs(&args[9..15]), vec!["-c:v", "mpeg4", "-q:v", "3", "-c:a", "mp3"]);
}

#[test]
fn mov_request_end_to_end() {
    let args = assemble_args(&request("mov", None)).unwrap();
    let expected = vec![
        "-y", "-i", "in.mp4", "-map", "0:v:0", "-map", "0:a?", "-vf", FILTER,
        "-c:v", "libx264", "-preset", "veryfast", "-crf", "18", "-pix_fmt", "yuv420p",
        "-c:a", "aac", "-movflags", "+faststart", "out.file",
    ];
    assert_eq!(strs(&args), expected);
    assert!(!args.iter().any(|a| a == "-ss" || a == "-t"));
}

#[test]
fn command_carries_program() {
    let program = EncoderLocation::CommandName("ffmpeg".to_string());
    let cmd = assemble_command(&request("mov", None), program.clone()).unwrap();
    assert_eq!(cmd.program, program);
    assert_eq!(cmd.args.last().unwrap(), "out.file");
    let t = TrimRange { start_ms: 3, end_ms: 1 };
    assert_eq!(assemble_command(&request("mov", Some(t)), program), Err(CropError::InvalidTrim));
}

#[test]
fn error_messages() {
    assert_eq!(CropError::InvalidGeometry(GeometryPart::Crop).message(), "Crop size is empty after normalization.");
    assert_eq!(CropError::InvalidGeometry(GeometryPart::Output).message(), "Output size is empty after normalization.");
    assert_eq!(CropError::InvalidTrim.message(), "Trim duration must be greater than 0.");
    assert_eq!(CropError::LaunchFailure("not found".to_string()).message(), "Failed to run ffmpeg: not found");
    assert_eq!(CropError::EncodeFailure("a\nb".to_string()).message(), "ffmpeg failed:\na\nb");
}
