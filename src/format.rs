use vstd::prelude::*;
use vstd::string::*;

use crate::text::{push_text, same_text, texts};

verus! {

/// The lowercase form of a string, as `str::to_lowercase` gives it.
pub uninterp spec fn lower_of(s: Seq<char>) -> Seq<char>;

/// Relies on `str::to_lowercase`: the Unicode lowercase form, which depends on
/// the characters alone.
#[verifier::external_body]
pub(crate) fn lowercase(s: &str) -> (r: String)
    ensures
        r@ == lower_of(s@),
{
    s.to_lowercase()
}

/// The codec and container family selected for an output format.
#[derive(Clone, Copy, Debug, PartialEq, Eq, Structural)]
pub enum FormatKind {
    Webm,
    Avi,
    Mov,
    Standard,
}

/// The family of an already lowercased format name; any name that is not
/// `webm`, `avi` or `mov` falls back to the standard H.264/AAC family.
pub open spec fn kind_of(lowered: Seq<char>) -> FormatKind {
    if lowered == "webm"@ {
        FormatKind::Webm
    } else if lowered == "avi"@ {
        FormatKind::Avi
    } else if lowered == "mov"@ {
        FormatKind::Mov
    } else {
        FormatKind::Standard
    }
}

/// The codec and container arguments of each family.
pub open spec fn codec_args(k: FormatKind) -> Seq<Seq<char>> {
    match k {
        FormatKind::Webm => seq![
            "-c:v"@, "libvpx-vp9"@, "-b:v"@, "0"@, "-crf"@, "32"@, "-c:a"@, "libopus"@,
        ],
        FormatKind::Avi => seq!["-c:v"@, "mpeg4"@, "-q:v"@, "3"@, "-c:a"@, "mp3"@],
        FormatKind::Mov => seq![
            "-c:v"@, "libx264"@, "-preset"@, "veryfast"@, "-crf"@, "18"@, "-pix_fmt"@,
            "yuv420p"@, "-c:a"@, "aac"@, "-movflags"@, "+faststart"@,
        ],
        FormatKind::Standard => seq![
            "-c:v"@, "libx264"@, "-preset"@, "veryfast"@, "-crf"@, "18"@, "-pix_fmt"@,
            "yuv420p"@, "-c:a"@, "aac"@,
        ],
    }
}

impl FormatKind {
    /// Selects the family of an already lowercased format name.
    pub fn from_lowered(lowered: &str) -> (r: FormatKind)
        ensures
            r == kind_of(lowered@),
    {
        if same_text(lowered, "webm") {
            FormatKind::Webm
        } else if same_text(lowered, "avi") {
            FormatKind::Avi
        } else if same_text(lowered, "mov") {
            FormatKind::Mov
        } else {
            FormatKind::Standard
        }
    }

    /// Selects the family of a format name, ignoring case.
    pub fn from_format(format: &str) -> (r: FormatKind)
        ensures
            r == kind_of(lower_of(format@)),
    {
        let lowered = lowercase(format);
        FormatKind::from_lowered(lowered.as_str())
    }

    /// Appends this family's codec and container arguments to `args`.
    pub fn push_args(self, args: &mut Vec<String>)
        ensures
            texts(final(args)@) == texts(old(args)@) + codec_args(self),
    {
        let ghost start = texts(args@);
        match self {
            FormatKind::Webm => {
                push_text(args, "-c:v");
                push_text(args, "libvpx-vp9");
                push_text(args, "-b:v");
                push_text(args, "0");
                push_text(args, "-crf");
                push_text(args, "32");
                push_text(args, "-c:a");
                push_text(args, "libopus");
            },
            FormatKind::Avi => {
                push_text(args, "-c:v");
                push_text(args, "mpeg4");
                push_text(args, "-q:v");
                push_text(args, "3");
                push_text(args, "-c:a");
                push_text(args, "mp3");
            },
            _ => {
                push_text(args, "-c:v");
                push_text(args, "libx264");
                push_text(args, "-preset");
                push_text(args, "veryfast");
                push_text(args, "-crf");
                push_text(args, "18");
                push_text(args, "-pix_fmt");
                push_text(args, "yuv420p");
                push_text(args, "-c:a");
                push_text(args, "aac");
                if self == FormatKind::Mov {
                    push_text(args, "-movflags");
                    push_text(args, "+faststart");
                }
            },
        }
        assert(texts(args@) =~= start + codec_args(self));
    }

    /// This family's codec and container arguments.
    pub fn args(self) -> (r: Vec<String>)
        ensures
            texts(r@) == codec_args(self),
    {
        let mut v: Vec<String> = Vec::new();
        assert(texts(v@) =~= Seq::<Seq<char>>::empty());
        self.push_args(&mut v);
        assert(texts(v@) =~= codec_args(self));
        v
    }
}

} // verus!
