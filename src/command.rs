use vstd::prelude::*;
use vstd::string::*;

use crate::format::{codec_args, kind_of, lower_of, lowercase, FormatKind};
use crate::geometry::{build_filter, filter_text, normalize_geometry, normalized};
use crate::locator::EncoderLocation;
use crate::request::{CropError, CropRequest, TrimRange};
use crate::text::{push_text, seconds_fixed3, seconds_text, texts};

verus! {

/// The start of a trim window, clamped to be at least 0.
pub open spec fn clamped_start(t: TrimRange) -> int {
    if t.start_ms < 0 {
        0
    } else {
        t.start_ms as int
    }
}

/// The end of a trim window, clamped to be at least the clamped start.
pub open spec fn clamped_end(t: TrimRange) -> int {
    if t.end_ms < clamped_start(t) {
        clamped_start(t)
    } else {
        t.end_ms as int
    }
}

/// The length of a trim window after clamping; never negative.
pub open spec fn trim_duration(t: TrimRange) -> int {
    clamped_end(t) - clamped_start(t)
}

/// Whether the request's trim window is present and empty after clamping.
pub open spec fn trim_rejected(trim: Option<TrimRange>) -> bool {
    match trim {
        Some(t) => trim_duration(t) <= 0,
        None => false,
    }
}

/// The arguments that select the input: with a trim window, a seek to its start
/// before the input and its duration after it, both with three decimals.
pub open spec fn input_args(input: Seq<char>, trim: Option<TrimRange>) -> Seq<Seq<char>> {
    match trim {
        Some(t) => seq![
            "-ss"@,
            seconds_fixed3(clamped_start(t) as nat),
            "-i"@,
            input,
            "-t"@,
            seconds_fixed3(trim_duration(t) as nat),
        ],
        None => seq!["-i"@, input],
    }
}

/// The full argument list of one encode, given the lowercased format name.
pub open spec fn encode_args(req: CropRequest, lowered: Seq<char>) -> Seq<Seq<char>> {
    seq!["-y"@] + input_args(req.input_path@, req.trim) + seq![
        "-map"@,
        "0:v:0"@,
        "-map"@,
        "0:a?"@,
        "-vf"@,
        filter_text(normalized(req.crop, req.output.width, req.output.height)),
    ] + codec_args(kind_of(lowered)) + seq![req.output_path@]
}

/// An argument list together with the encoder that is to run it.
#[derive(Clone, Debug, PartialEq, Eq)]
pub struct AssembledCommand {
    pub program: EncoderLocation,
    pub args: Vec<String>,
}

/// The clamped length of a trim window, never negative.
pub fn clamp_trim(t: &TrimRange) -> (r: (u64, u64))
    ensures
        r.0 as int == clamped_start(*t),
        r.1 as int == trim_duration(*t),
        t.end_ms < t.start_ms ==> r.1 == 0,
{
    let start: i64 = if t.start_ms < 0 { 0 } else { t.start_ms };
    let end: i64 = if t.end_ms < start { start } else { t.end_ms };
    (start as u64, (end - start) as u64)
}

/// Builds the encoder's argument list for a request whose format name is
/// already lowercased. Fails exactly when a trim window is given and is empty
/// after clamping; geometry never fails, since normalization keeps every size
/// at 2 or more.
pub fn assemble_args_lowered(req: &CropRequest, lowered: &str) -> (r: Result<
    Vec<String>,
    CropError,
>)
    ensures
        trim_rejected(req.trim) ==> r == Err::<Vec<String>, CropError>(CropError::InvalidTrim),
        !trim_rejected(req.trim) ==> r is Ok && texts(r->Ok_0@) == encode_args(*req, lowered@),
        !(r matches Err(CropError::InvalidGeometry(_))),
{
    let g = match normalize_geometry(&req.crop, &req.output) {
        Ok(g) => g,
        Err(e) => {
            return Err(e);
        },
    };
    let filter = build_filter(&g);
    let mut args: Vec<String> = Vec::new();
    push_text(&mut args, "-y");
    match &req.trim {
        Some(t) => {
            let (start, duration) = clamp_trim(t);
            if duration == 0 {
                return Err(CropError::InvalidTrim);
            }
            push_text(&mut args, "-ss");
            let start_text = seconds_text(start);
            push_text(&mut args, start_text.as_str());
            push_text(&mut args, "-i");
            push_text(&mut args, req.input_path.as_str());
            push_text(&mut args, "-t");
            let duration_text = seconds_text(duration);
            push_text(&mut args, duration_text.as_str());
        },
        None => {
            push_text(&mut args, "-i");
            push_text(&mut args, req.input_path.as_str());
        },
    }
    push_text(&mut args, "-map");
    push_text(&mut args, "0:v:0");
    push_text(&mut args, "-map");
    push_text(&mut args, "0:a?");
    push_text(&mut args, "-vf");
    push_text(&mut args, filter.as_str());
    let ghost before_codec = texts(args@);
    FormatKind::from_lowered(lowered).push_args(&mut args);
    push_text(&mut args, req.output_path.as_str());
    assert(before_codec =~= seq!["-y"@] + input_args(req.input_path@, req.trim) + seq![
        "-map"@,
        "0:v:0"@,
        "-map"@,
        "0:a?"@,
        "-vf"@,
        filter_text(normalized(req.crop, req.output.width, req.output.height)),
    ]);
    assert(texts(args@) =~= encode_args(*req, lowered@));
    Ok(args)
}

/// Builds the encoder's argument list for a request, matching the format name
/// without regard to case.
pub fn assemble_args(req: &CropRequest) -> (r: Result<Vec<String>, CropError>)
    ensures
        trim_rejected(req.trim) ==> r == Err::<Vec<String>, CropError>(CropError::InvalidTrim),
        !trim_rejected(req.trim) ==> r is Ok && texts(r->Ok_0@) == encode_args(
            *req,
            lower_of(req.output.format@),
        ),
        !(r matches Err(CropError::InvalidGeometry(_))),
{
    let lowered = lowercase(req.output.format.as_str());
    assemble_args_lowered(req, lowered.as_str())
}

/// Builds the full command of a request: the located encoder and its arguments.
pub fn assemble_command(req: &CropRequest, program: EncoderLocation) -> (r: Result<
    AssembledCommand,
    CropError,
>)
    ensures
        trim_rejected(req.trim) ==> r == Err::<AssembledCommand, CropError>(
            CropError::InvalidTrim,
        ),
        !trim_rejected(req.trim) ==> r is Ok && r->Ok_0.program == program && texts(
            r->Ok_0.args@,
        ) == encode_args(*req, lower_of(req.output.format@)),
{
    match assemble_args(req) {
        Ok(args) => Ok(AssembledCommand { program, args }),
        Err(e) => Err(e),
    }
}

/// A trim window whose end lies before its start has clamped length 0, and a
/// request that carries it is refused as an invalid trim.
pub proof fn lemma_reversed_trim_rejected(t: TrimRange)
    requires
        t.end_ms < t.start_ms,
    ensures
        trim_duration(t) == 0,
        trim_rejected(Some(t)),
{
}

/// An untrimmed request in the `mov` format is encoded as: overwrite, the
/// input with no seek or duration, the stream selection, the filter, the `mov`
/// codec and fast-start flags, and last the output path.
pub proof fn lemma_untrimmed_mov_layout(req: CropRequest)
    requires
        req.trim is None,
    ensures
        encode_args(req, "mov"@) == seq![
            "-y"@,
            "-i"@,
            req.input_path@,
            "-map"@,
            "0:v:0"@,
            "-map"@,
            "0:a?"@,
            "-vf"@,
            filter_text(normalized(req.crop, req.output.width, req.output.height)),
            "-c:v"@,
            "libx264"@,
            "-preset"@,
            "veryfast"@,
            "-crf"@,
            "18"@,
            "-pix_fmt"@,
            "yuv420p"@,
            "-c:a"@,
            "aac"@,
            "-movflags"@,
            "+faststart"@,
            req.output_path@,
        ],
{
    reveal_strlit("mov");
    reveal_strlit("webm");
    reveal_strlit("avi");
    assert("mov"@ != "webm"@ && "mov"@ != "avi"@) by {
        assert("mov"@.len() != "webm"@.len());
        assert("mov"@[0] != "avi"@[0]);
    }
    assert(kind_of("mov"@) == FormatKind::Mov);
    assert(encode_args(req, "mov"@) =~= seq![
        "-y"@,
        "-i"@,
        req.input_path@,
        "-map"@,
        "0:v:0"@,
        "-map"@,
        "0:a?"@,
        "-vf"@,
        filter_text(normalized(req.crop, req.output.width, req.output.height)),
        "-c:v"@,
        "libx264"@,
        "-preset"@,
        "veryfast"@,
        "-crf"@,
        "18"@,
        "-pix_fmt"@,
        "yuv420p"@,
        "-c:a"@,
        "aac"@,
        "-movflags"@,
        "+faststart"@,
        req.output_path@,
    ]);
}

} // verus!

