//! Which hardware video encoder the worker can use.

use crate::encoding::{decode_lossy, law_printed_text_is_read, printed};
use crate::text::{contains, has_text, law_what_stands_is_found};
use vstd::prelude::*;
use vstd::utf8::encode_utf8;

verus! {

/// The hardware video encoders that a worker knows.
#[derive(Debug, Clone, Copy, PartialEq, Eq, Structural)]
pub enum HardwareAccel {
    /// No hardware encoder: the CPU encodes.
    Absent,
    /// NVIDIA NVENC.
    Nvenc,
    /// Apple VideoToolbox.
    VideoToolbox,
}

/// The option with which `ffmpeg` lists its encoders.
pub const LISTING_OPTION: &'static str = "-encoders";

/// The encoder to use, given what `ffmpeg -encoders` printed: NVENC wherever it is listed,
/// else VideoToolbox wherever that is listed.
pub open spec fn listed_accel(stdout: Seq<char>, stderr: Seq<char>) -> HardwareAccel {
    if contains(stdout, "h264_nvenc"@) || contains(stderr, "h264_nvenc"@) {
        HardwareAccel::Nvenc
    } else if contains(stdout, "h264_videotoolbox"@) || contains(stderr, "h264_videotoolbox"@) {
        HardwareAccel::VideoToolbox
    } else {
        HardwareAccel::Absent
    }
}

/// The name under which an encoder is announced to the server.
pub open spec fn accel_name(accel: HardwareAccel) -> Seq<char> {
    match accel {
        HardwareAccel::Absent => "None"@,
        HardwareAccel::Nvenc => "Nvenc"@,
        HardwareAccel::VideoToolbox => "VideoToolbox"@,
    }
}

impl HardwareAccel {
    /// The name under which the encoder is announced to the server.
    pub fn name(self) -> (name: &'static str)
        ensures
            name@ == accel_name(self),
    {
        match self {
            HardwareAccel::Absent => "None",
            HardwareAccel::Nvenc => "Nvenc",
            HardwareAccel::VideoToolbox => "VideoToolbox",
        }
    }
}

/// The encoder to use, given the text that `ffmpeg -encoders` printed.
pub fn accel_from_listing(stdout: &str, stderr: &str) -> (accel: HardwareAccel)
    ensures
        accel == listed_accel(stdout@, stderr@),
{
    if has_text(stdout, "h264_nvenc") || has_text(stderr, "h264_nvenc") {
        HardwareAccel::Nvenc
    } else if has_text(stdout, "h264_videotoolbox") || has_text(stderr, "h264_videotoolbox") {
        HardwareAccel::VideoToolbox
    } else {
        HardwareAccel::Absent
    }
}

/// The encoder to use, given the bytes that `ffmpeg -encoders` wrote to its standard output
/// and standard error, or nothing if it could not be run.
pub fn detect_accel(output: Option<(Vec<u8>, Vec<u8>)>) -> (accel: HardwareAccel)
    ensures
        accel == match output {
            Some((stdout, stderr)) => listed_accel(printed(stdout@), printed(stderr@)),
            None => HardwareAccel::Absent,
        },
{
    match output {
        Some((stdout, stderr)) => {
            let stdout_text = decode_lossy(stdout.as_slice());
            let stderr_text = decode_lossy(stderr.as_slice());
            accel_from_listing(stdout_text.as_str(), stderr_text.as_str())
        },
        None => HardwareAccel::Absent,
    }
}

/// NVENC is used wherever it is listed, in either of the two texts and whatever else is there.
pub proof fn law_nvenc_is_used_wherever_listed(
    front: Seq<char>,
    behind: Seq<char>,
    other: Seq<char>,
)
    ensures
        listed_accel(front + "h264_nvenc"@ + behind, other) == HardwareAccel::Nvenc,
        listed_accel(other, front + "h264_nvenc"@ + behind) == HardwareAccel::Nvenc,
{
    law_what_stands_is_found(front, "h264_nvenc"@, behind);
}

/// Where NVENC is not listed, VideoToolbox is used wherever it is listed, in either of the two
/// texts.
pub proof fn law_videotoolbox_is_used_next(
    front: Seq<char>,
    behind: Seq<char>,
    other: Seq<char>,
)
    requires
        !contains(front + "h264_videotoolbox"@ + behind, "h264_nvenc"@),
        !contains(other, "h264_nvenc"@),
    ensures
        listed_accel(front + "h264_videotoolbox"@ + behind, other) == HardwareAccel::VideoToolbox,
        listed_accel(other, front + "h264_videotoolbox"@ + behind) == HardwareAccel::VideoToolbox,
{
    law_what_stands_is_found(front, "h264_videotoolbox"@, behind);
}

/// An encoder is used only if it is listed, and there is none to use exactly when neither text
/// lists one.
pub proof fn law_only_listed_encoders_are_used(stdout: Seq<char>, stderr: Seq<char>)
    ensures
        listed_accel(stdout, stderr) == HardwareAccel::Nvenc ==> contains(stdout, "h264_nvenc"@)
            || contains(stderr, "h264_nvenc"@),
        listed_accel(stdout, stderr) == HardwareAccel::VideoToolbox ==> contains(
            stdout,
            "h264_videotoolbox"@,
        ) || contains(stderr, "h264_videotoolbox"@),
        listed_accel(stdout, stderr) == HardwareAccel::Absent <==> {
            &&& !contains(stdout, "h264_nvenc"@)
            &&& !contains(stderr, "h264_nvenc"@)
            &&& !contains(stdout, "h264_videotoolbox"@)
            &&& !contains(stderr, "h264_videotoolbox"@)
        },
{
}

/// It does not matter which of the two texts lists what.
pub proof fn law_texts_count_alike(a: Seq<char>, b: Seq<char>)
    ensures
        listed_accel(a, b) == listed_accel(b, a),
{
}

/// The encoder is found in what `ffmpeg` writes, on whichever of its two outputs; where it cannot
/// be run there is none.
pub proof fn law_encoders_are_found_on_either_output(
    listing: Vec<u8>,
    other: Vec<u8>,
    front: Seq<char>,
    behind: Seq<char>,
    accels: (HardwareAccel, HardwareAccel, HardwareAccel),
)
    requires
        call_ensures(detect_accel, (Some((listing, other)),), accels.0),
        call_ensures(detect_accel, (Some((other, listing)),), accels.1),
        call_ensures(detect_accel, (None,), accels.2),
    ensures
        accels.0 == accels.1,
        accels.2 == HardwareAccel::Absent,
        listing@ == encode_utf8(front + "h264_nvenc"@ + behind) ==> accels.0
            == HardwareAccel::Nvenc,
        listing@ == encode_utf8(front + "h264_videotoolbox"@ + behind) && !contains(
            printed(listing@),
            "h264_nvenc"@,
        ) && !contains(printed(other@), "h264_nvenc"@) ==> accels.0 == HardwareAccel::VideoToolbox,
{
    law_texts_count_alike(printed(listing@), printed(other@));
    law_printed_text_is_read(front + "h264_nvenc"@ + behind);
    law_printed_text_is_read(front + "h264_videotoolbox"@ + behind);
    law_nvenc_is_used_wherever_listed(front, behind, printed(other@));
    law_what_stands_is_found(front, "h264_videotoolbox"@, behind);
}

} // verus!
