//! The renditions of a video, the files that a job works on, and the command lines of
//! `ffmpeg` and `ffprobe`.

use crate::accel::HardwareAccel;
use crate::encoding::{decode_lossy, law_printed_text_is_read, printed};
use crate::number::{
    decimal, digits, i32_value, is_digit, law_numerals_are_read, law_only_numerals_are_read,
    law_parse_undoes_decimal, lemma_decimal_chars, parse_i32, positional,
};
use crate::text::{
    blank, law_only_the_margins_are_trimmed, lemma_trimmed_end, lemma_trimmed_start, trim, trimmed,
};
use vstd::prelude::*;
use vstd::utf8::encode_utf8;

verus! {

/// A rendition, by the number of its lines.
#[derive(Debug, Clone, Copy, PartialEq, Eq, Structural)]
pub enum Quality {
    P1080,
    P720,
    P480,
}

/// What encodes the video stream of a rendition.
#[derive(Debug, Clone, Copy, PartialEq, Eq, Structural)]
pub enum Encoder {
    Nvenc,
    VideoToolbox,
    Cpu,
}

/// A file or folder in the scratch folder of a job.
#[derive(Debug, Clone, Copy, PartialEq, Eq, Structural)]
pub enum WorkPath {
    /// The downloaded video.
    Raw,
    /// The folder of the thumbnail sheets.
    ThumbsFolder,
    /// The pattern that names the thumbnail sheets.
    ThumbsPattern,
    /// The folder of a rendition.
    RenditionFolder(Quality),
    /// The pattern that names the segments of a rendition.
    SegmentPattern(Quality),
    /// The playlist of a rendition, as `ffmpeg` writes it.
    RenditionPlaylist(Quality),
    /// The master playlist.
    Master,
}

/// An argument of a command line: a word, or the full path of a scratch file.
#[derive(Debug, Clone, Copy, PartialEq, Eq)]
pub enum Arg {
    Word(&'static str),
    Path(WorkPath),
}

/// The name of a rendition.
pub open spec fn quality_name(quality: Quality) -> &'static str {
    match quality {
        Quality::P1080 => "1080p",
        Quality::P720 => "720p",
        Quality::P480 => "480p",
    }
}

/// The steps from the scratch folder to a file in it.
pub open spec fn path_steps(path: WorkPath) -> Seq<&'static str> {
    match path {
        WorkPath::Raw => seq!["raw.mp4"],
        WorkPath::ThumbsFolder => seq!["thumbs"],
        WorkPath::ThumbsPattern => seq!["thumbs", "thumbnails_%03d.jpg"],
        WorkPath::RenditionFolder(quality) => seq![quality_name(quality)],
        WorkPath::SegmentPattern(quality) => seq![
            quality_name(quality),
            match quality {
                Quality::P1080 => "1080p_%03d.ts",
                Quality::P720 => "720p_%03d.ts",
                Quality::P480 => "480p_%03d.ts",
            },
        ],
        WorkPath::RenditionPlaylist(quality) => seq![
            quality_name(quality),
            match quality {
                Quality::P1080 => "1080p.m3u8",
                Quality::P720 => "720p.m3u8",
                Quality::P480 => "480p.m3u8",
            },
        ],
        WorkPath::Master => seq!["master.txt"],
    }
}

/// The renditions to make of a source of the given height, from the largest down: 1080p of
/// a source of at least 1000 lines, 720p of one of at least 700, and 480p always.
pub open spec fn ladder(height: int) -> Seq<Quality> {
    if height >= 1000 {
        seq![Quality::P1080, Quality::P720, Quality::P480]
    } else if height >= 700 {
        seq![Quality::P720, Quality::P480]
    } else {
        seq![Quality::P480]
    }
}

/// The encoder to try first.
pub open spec fn preferred_encoder(accel: HardwareAccel) -> Encoder {
    match accel {
        HardwareAccel::Absent => Encoder::Cpu,
        HardwareAccel::Nvenc => Encoder::Nvenc,
        HardwareAccel::VideoToolbox => Encoder::VideoToolbox,
    }
}

/// The filter that scales a video to a rendition.
pub open spec fn scale_filter(quality: Quality) -> &'static str {
    match quality {
        Quality::P1080 => "scale=-2:1080,format=yuv420p",
        Quality::P720 => "scale=-2:720,format=yuv420p",
        Quality::P480 => "scale=-2:480,format=yuv420p",
    }
}

/// The options that choose and tune an encoder.
pub open spec fn encoder_args(encoder: Encoder) -> Seq<Arg> {
    match encoder {
        Encoder::Nvenc => seq![
            Arg::Word("-c:v"),
            Arg::Word("h264_nvenc"),
            Arg::Word("-preset"),
            Arg::Word("p4"),
        ],
        Encoder::VideoToolbox => seq![
            Arg::Word("-c:v"),
            Arg::Word("h264_videotoolbox"),
            Arg::Word("-realtime"),
            Arg::Word("true"),
        ],
        Encoder::Cpu => seq![
            Arg::Word("-c:v"),
            Arg::Word("libx264"),
            Arg::Word("-preset"),
            Arg::Word("ultrafast"),
        ],
    }
}

/// The options that read the source and scale it.
pub open spec fn source_args(quality: Quality) -> Seq<Arg> {
    seq![
        Arg::Word("-y"),
        Arg::Word("-fflags"),
        Arg::Word("+genpts"),
        Arg::Word("-i"),
        Arg::Path(WorkPath::Raw),
        Arg::Word("-vf"),
        Arg::Word(scale_filter(quality)),
    ]
}

/// The options that pick the streams and encode the sound.
pub open spec fn stream_args() -> Seq<Arg> {
    seq![
        Arg::Word("-map"),
        Arg::Word("0:v:0"),
        Arg::Word("-map"),
        Arg::Word("0:a?"),
        Arg::Word("-c:a"),
        Arg::Word("aac"),
        Arg::Word("-ac"),
        Arg::Word("2"),
        Arg::Word("-b:a"),
        Arg::Word("192k"),
        Arg::Word("-max_muxing_queue_size"),
        Arg::Word("1024"),
        Arg::Word("-threads"),
        Arg::Word("4"),
    ]
}

/// The options that cut the stream into segments and list them in a playlist.
pub open spec fn segment_args(quality: Quality) -> Seq<Arg> {
    seq![
        Arg::Word("-f"),
        Arg::Word("hls"),
        Arg::Word("-hls_time"),
        Arg::Word("4"),
        Arg::Word("-hls_playlist_type"),
        Arg::Word("vod"),
        Arg::Word("-hls_segment_filename"),
        Arg::Path(WorkPath::SegmentPattern(quality)),
        Arg::Path(WorkPath::RenditionPlaylist(quality)),
    ]
}

/// The arguments with which `ffmpeg` makes a rendition.
pub open spec fn transcode_args(quality: Quality, encoder: Encoder) -> Seq<Arg> {
    source_args(quality) + encoder_args(encoder) + stream_args() + segment_args(quality)
}

/// The arguments with which `ffmpeg` makes the thumbnail sheets.
pub open spec fn thumbnail_args() -> Seq<Arg> {
    seq![
        Arg::Word("-y"),
        Arg::Word("-i"),
        Arg::Path(WorkPath::Raw),
        Arg::Word("-vf"),
        Arg::Word("fps=1/10,scale=160:-1,tile=10x10"),
        Arg::Word("-q:v"),
        Arg::Word("5"),
        Arg::Path(WorkPath::ThumbsPattern),
    ]
}

/// The arguments with which `ffprobe` prints the bare values of `entries`, of the streams
/// that `selection` leaves.
pub open spec fn probe_args(selection: Seq<Arg>, entries: &'static str) -> Seq<Arg> {
    seq![Arg::Word("-v"), Arg::Word("error")] + selection + seq![
        Arg::Word("-show_entries"),
        Arg::Word(entries),
        Arg::Word("-of"),
        Arg::Word("default=noprint_wrappers=1:nokey=1"),
        Arg::Path(WorkPath::Raw),
    ]
}

/// The arguments with which `ffprobe` prints the duration of the source.
pub open spec fn duration_probe_args() -> Seq<Arg> {
    probe_args(Seq::empty(), "format=duration")
}

/// The arguments with which `ffprobe` prints the height of the first video stream.
pub open spec fn height_probe_args() -> Seq<Arg> {
    probe_args(seq![Arg::Word("-select_streams"), Arg::Word("v:0")], "stream=height")
}

/// The words that describe the making of the thumbnail sheets.
pub const THUMBNAIL_LABEL: &'static str = "Thumbnail extraction";

/// The height of a source whose height cannot be read.
pub const FALLBACK_HEIGHT: i32 = 1080;

/// The height that a text tells: the number in it, or the fallback.
pub open spec fn told_height(text: Seq<char>) -> i32 {
    match i32_value(text) {
        Some(height) => height,
        None => FALLBACK_HEIGHT,
    }
}

/// The words that describe the making of a rendition.
pub open spec fn transcode_label(quality: Quality, encoder: Encoder) -> Seq<char> {
    quality_name(quality)@ + match encoder {
        Encoder::Nvenc => " NVENC transcoding"@,
        Encoder::VideoToolbox => " VideoToolbox transcoding"@,
        Encoder::Cpu => " CPU transcoding"@,
    }
}

impl Quality {
    /// The name of the rendition.
    pub fn name(self) -> (name: &'static str)
        ensures
            name == quality_name(self),
    {
        match self {
            Quality::P1080 => "1080p",
            Quality::P720 => "720p",
            Quality::P480 => "480p",
        }
    }
}

impl WorkPath {
    /// The steps from the scratch folder to the file.
    pub fn steps(self) -> (steps: Vec<&'static str>)
        ensures
            steps@ == path_steps(self),
    {
        match self {
            WorkPath::Raw => vec!["raw.mp4"],
            WorkPath::ThumbsFolder => vec!["thumbs"],
            WorkPath::ThumbsPattern => vec!["thumbs", "thumbnails_%03d.jpg"],
            WorkPath::RenditionFolder(quality) => vec![quality.name()],
            WorkPath::SegmentPattern(quality) => {
                let file = match quality {
                    Quality::P1080 => "1080p_%03d.ts",
                    Quality::P720 => "720p_%03d.ts",
                    Quality::P480 => "480p_%03d.ts",
                };
                vec![quality.name(), file]
            },
            WorkPath::RenditionPlaylist(quality) => {
                let file = match quality {
                    Quality::P1080 => "1080p.m3u8",
                    Quality::P720 => "720p.m3u8",
                    Quality::P480 => "480p.m3u8",
                };
                vec![quality.name(), file]
            },
            WorkPath::Master => vec!["master.txt"],
        }
    }
}

/// The renditions to make of a source of the given height, from the largest down.
pub fn renditions_for(height: i32) -> (qualities: Vec<Quality>)
    ensures
        qualities@ == ladder(height as int),
{
    let mut qualities: Vec<Quality> = Vec::new();
    if height >= 1000 {
        qualities.push(Quality::P1080);
    }
    if height >= 700 {
        qualities.push(Quality::P720);
    }
    qualities.push(Quality::P480);
    assert(qualities@ =~= ladder(height as int));
    qualities
}

/// The encoder to try first.
pub fn first_encoder(accel: HardwareAccel) -> (encoder: Encoder)
    ensures
        encoder == preferred_encoder(accel),
{
    match accel {
        HardwareAccel::Absent => Encoder::Cpu,
        HardwareAccel::Nvenc => Encoder::Nvenc,
        HardwareAccel::VideoToolbox => Encoder::VideoToolbox,
    }
}

/// The arguments with which `ffmpeg` makes a rendition.
pub fn transcode_command(quality: Quality, encoder: Encoder) -> (args: Vec<Arg>)
    ensures
        args@ == transcode_args(quality, encoder),
{
    let scale = match quality {
        Quality::P1080 => "scale=-2:1080,format=yuv420p",
        Quality::P720 => "scale=-2:720,format=yuv420p",
        Quality::P480 => "scale=-2:480,format=yuv420p",
    };
    let (codec, knob, setting) = match encoder {
        Encoder::Nvenc => ("h264_nvenc", "-preset", "p4"),
        Encoder::VideoToolbox => ("h264_videotoolbox", "-realtime", "true"),
        Encoder::Cpu => ("libx264", "-preset", "ultrafast"),
    };
    let args: Vec<Arg> = vec![
        Arg::Word("-y"),
        Arg::Word("-fflags"), Arg::Word("+genpts"),
        Arg::Word("-i"), Arg::Path(WorkPath::Raw),
        Arg::Word("-vf"), Arg::Word(scale),
        Arg::Word("-c:v"), Arg::Word(codec),
        Arg::Word(knob), Arg::Word(setting),
        Arg::Word("-map"), Arg::Word("0:v:0"),
        Arg::Word("-map"), Arg::Word("0:a?"),
        Arg::Word("-c:a"), Arg::Word("aac"),
        Arg::Word("-ac"), Arg::Word("2"),
        Arg::Word("-b:a"), Arg::Word("192k"),
        Arg::Word("-max_muxing_queue_size"), Arg::Word("1024"),
        Arg::Word("-threads"), Arg::Word("4"),
        Arg::Word("-f"), Arg::Word("hls"),
        Arg::Word("-hls_time"), Arg::Word("4"),
        Arg::Word("-hls_playlist_type"), Arg::Word("vod"),
        Arg::Word("-hls_segment_filename"), Arg::Path(WorkPath::SegmentPattern(quality)),
        Arg::Path(WorkPath::RenditionPlaylist(quality)),
    ];
    assert(args@ =~= transcode_args(quality, encoder));
    args
}

/// The arguments with which `ffmpeg` makes the thumbnail sheets.
pub fn thumbnail_command() -> (args: Vec<Arg>)
    ensures
        args@ == thumbnail_args(),
{
    let args: Vec<Arg> = vec![
        Arg::Word("-y"),
        Arg::Word("-i"), Arg::Path(WorkPath::Raw),
        Arg::Word("-vf"), Arg::Word("fps=1/10,scale=160:-1,tile=10x10"),
        Arg::Word("-q:v"), Arg::Word("5"),
        Arg::Path(WorkPath::ThumbsPattern),
    ];
    assert(args@ =~= thumbnail_args());
    args
}

/// The arguments with which `ffprobe` prints the duration of the source.
pub fn duration_probe() -> (args: Vec<Arg>)
    ensures
        args@ == duration_probe_args(),
{
    let args: Vec<Arg> = vec![
        Arg::Word("-v"), Arg::Word("error"),
        Arg::Word("-show_entries"), Arg::Word("format=duration"),
        Arg::Word("-of"), Arg::Word("default=noprint_wrappers=1:nokey=1"),
        Arg::Path(WorkPath::Raw),
    ];
    assert(args@ =~= duration_probe_args());
    args
}

/// The arguments with which `ffprobe` prints the height of the first video stream.
pub fn height_probe() -> (args: Vec<Arg>)
    ensures
        args@ == height_probe_args(),
{
    let args: Vec<Arg> = vec![
        Arg::Word("-v"), Arg::Word("error"),
        Arg::Word("-select_streams"), Arg::Word("v:0"),
        Arg::Word("-show_entries"), Arg::Word("stream=height"),
        Arg::Word("-of"), Arg::Word("default=noprint_wrappers=1:nokey=1"),
        Arg::Path(WorkPath::Raw),
    ];
    assert(args@ =~= height_probe_args());
    args
}

/// The value that `ffprobe` printed, without the white space around it.
pub fn probed_value(stdout: &[u8]) -> (value: String)
    ensures
        value@ == trimmed(printed(stdout@)),
{
    trim(decode_lossy(stdout).as_str())
}

/// The height that a probed value tells.
pub fn height_from(value: &str) -> (height: i32)
    ensures
        height == told_height(value@),
{
    match parse_i32(value) {
        Some(height) => height,
        None => FALLBACK_HEIGHT,
    }
}

/// The height of the source, given what `ffprobe` printed about it.
pub fn probed_height(stdout: &[u8]) -> (height: i32)
    ensures
        height == told_height(trimmed(printed(stdout@))),
{
    height_from(probed_value(stdout).as_str())
}

/// The words that describe the making of a rendition.
pub fn transcode_description(quality: Quality, encoder: Encoder) -> (label: String)
    ensures
        label@ == transcode_label(quality, encoder),
{
    let mut label = String::new();
    label.append(quality.name());
    label.append(
        match encoder {
            Encoder::Nvenc => " NVENC transcoding",
            Encoder::VideoToolbox => " VideoToolbox transcoding",
            Encoder::Cpu => " CPU transcoding",
        },
    );
    assert(label@ =~= transcode_label(quality, encoder));
    label
}

/// How many lines a rendition has.
pub open spec fn lines(quality: Quality) -> int {
    match quality {
        Quality::P1080 => 1080,
        Quality::P720 => 720,
        Quality::P480 => 480,
    }
}

/// Every source has a rendition: the smallest is always made, after all others.
pub proof fn law_smallest_is_always_made(height: int)
    ensures
        ladder(height).len() > 0,
        ladder(height).last() == Quality::P480,
{
}

/// The renditions come from the largest down, each of them once.
pub proof fn law_ladder_descends(height: int, i: int, j: int)
    requires
        0 <= i < j < ladder(height).len(),
    ensures
        lines(ladder(height)[i]) > lines(ladder(height)[j]),
{
}

/// A higher source loses no rendition.
pub proof fn law_ladder_grows(low: int, high: int, quality: Quality)
    requires
        low <= high,
        ladder(low).contains(quality),
    ensures
        ladder(high).contains(quality),
{
    let i = choose|i: int| 0 <= i < ladder(low).len() && ladder(low)[i] == quality;
    assert(ladder(high)[ladder(high).len() - ladder(low).len() + i] == quality);
}

/// Encoders are exchanged for each other in four arguments: all else of a command line is
/// the same, whichever encoder makes the rendition.
pub proof fn law_encoders_differ_in_their_options(quality: Quality, a: Encoder, b: Encoder, i: int)
    requires
        0 <= i < transcode_args(quality, a).len(),
        !(7 <= i < 11),
    ensures
        transcode_args(quality, a).len() == transcode_args(quality, b).len(),
        transcode_args(quality, a)[i] == transcode_args(quality, b)[i],
{
}

/// A height that `ffprobe` prints, with any white space around it, is read as that height.
pub proof fn law_printed_height_is_read(before: Seq<char>, height: i32, behind: Seq<char>)
    requires
        blank(before),
        blank(behind),
    ensures
        told_height(trimmed(before + decimal(height as int) + behind)) == height,
{
    let numeral = decimal(height as int);
    lemma_decimal_chars(height as int);
    assert(is_digit(numeral[0]) || numeral[0] == '-');
    assert(is_digit(numeral[numeral.len() - 1]) || numeral[numeral.len() - 1] == '-');
    assert(before + numeral + behind =~= before + (numeral + behind));
    assert((numeral + behind)[0] == numeral[0]);
    lemma_trimmed_start(before, numeral + behind);
    lemma_trimmed_end(numeral, behind);
    law_parse_undoes_decimal(height);
}

/// A rendition is made exactly of the sources that are high enough for it: 1080p from 1000 lines
/// on, 720p from 700 lines on, 480p of all.
pub proof fn law_ladder_goes_by_height(height: int)
    ensures
        ladder(height).contains(Quality::P1080) <==> height >= 1000,
        ladder(height).contains(Quality::P720) <==> height >= 700,
        ladder(height).contains(Quality::P480),
{
    let qualities = ladder(height);
    assert(qualities[qualities.len() - 1] == Quality::P480);
    if height >= 700 {
        assert(qualities[qualities.len() - 2] == Quality::P720);
    }
    if height >= 1000 {
        assert(qualities[0] == Quality::P1080);
    }
}

/// The numerals of the lines.
proof fn lemma_line_numerals(quality: Quality)
    ensures
        decimal(lines(quality)) == match quality {
            Quality::P1080 => seq!['1', '0', '8', '0'],
            Quality::P720 => seq!['7', '2', '0'],
            Quality::P480 => seq!['4', '8', '0'],
        },
{
    reveal_with_fuel(digits, 5);
    assert(decimal(1080) =~= seq!['1', '0', '8', '0']);
    assert(decimal(720) =~= seq!['7', '2', '0']);
    assert(decimal(480) =~= seq!['4', '8', '0']);
}

/// A rendition is named after its lines, it is scaled to them, and its files are in a folder of
/// that name and named after it too.
pub proof fn law_renditions_go_by_their_lines(quality: Quality)
    ensures
        ({
            let name = decimal(lines(quality)) + "p"@;
            let segments = path_steps(WorkPath::SegmentPattern(quality));
            let playlist = path_steps(WorkPath::RenditionPlaylist(quality));
            &&& quality_name(quality)@ == name
            &&& scale_filter(quality)@ == "scale=-2:"@ + decimal(lines(quality))
                + ",format=yuv420p"@
            &&& path_steps(WorkPath::RenditionFolder(quality)).len() == 1
            &&& path_steps(WorkPath::RenditionFolder(quality))[0]@ == name
            &&& segments.len() == 2 && segments[0]@ == name && segments[1]@ == name + "_%03d.ts"@
            &&& playlist.len() == 2 && playlist[0]@ == name && playlist[1]@ == name + ".m3u8"@
        }),
{
    lemma_line_numerals(quality);
    reveal_strlit("p");
    reveal_strlit("scale=-2:");
    reveal_strlit(",format=yuv420p");
    reveal_strlit("_%03d.ts");
    reveal_strlit(".m3u8");
    reveal_strlit("1080p");
    reveal_strlit("720p");
    reveal_strlit("480p");
    reveal_strlit("scale=-2:1080,format=yuv420p");
    reveal_strlit("scale=-2:720,format=yuv420p");
    reveal_strlit("scale=-2:480,format=yuv420p");
    reveal_strlit("1080p_%03d.ts");
    reveal_strlit("720p_%03d.ts");
    reveal_strlit("480p_%03d.ts");
    reveal_strlit("1080p.m3u8");
    reveal_strlit("720p.m3u8");
    reveal_strlit("480p.m3u8");
    let name = decimal(lines(quality)) + "p"@;
    assert(quality_name(quality)@ =~= name);
    assert(scale_filter(quality)@ =~= "scale=-2:"@ + decimal(lines(quality)) + ",format=yuv420p"@);
    assert(path_steps(WorkPath::SegmentPattern(quality))[1]@ =~= name + "_%03d.ts"@);
    assert(path_steps(WorkPath::RenditionPlaylist(quality))[1]@ =~= name + ".m3u8"@);
}

/// The encoder of a command line is the one that was asked for, with its own tuning, whichever
/// rendition it makes.
pub proof fn law_encoder_is_the_one_asked_for(quality: Quality)
    ensures
        transcode_args(quality, Encoder::Cpu).subrange(7, 11) == seq![
            Arg::Word("-c:v"),
            Arg::Word("libx264"),
            Arg::Word("-preset"),
            Arg::Word("ultrafast"),
        ],
        transcode_args(quality, Encoder::Nvenc).subrange(7, 11) == seq![
            Arg::Word("-c:v"),
            Arg::Word("h264_nvenc"),
            Arg::Word("-preset"),
            Arg::Word("p4"),
        ],
        transcode_args(quality, Encoder::VideoToolbox).subrange(7, 11) == seq![
            Arg::Word("-c:v"),
            Arg::Word("h264_videotoolbox"),
            Arg::Word("-realtime"),
            Arg::Word("true"),
        ],
{
}

/// A command line differs from that of another rendition or encoder only in the scale, in the
/// options of the encoder and in the files that are written: all of them read the same source and
/// treat the sound and the segments alike. The scale and the files are those of the rendition.
pub proof fn law_command_lines_are_alike(q: Quality, a: Encoder, r: Quality, b: Encoder, i: int)
    requires
        0 <= i < transcode_args(q, a).len(),
        i != 6 && !(7 <= i < 11) && i != 32 && i != 33,
    ensures
        transcode_args(q, a).len() == 34,
        transcode_args(r, b).len() == 34,
        transcode_args(q, a)[i] == transcode_args(r, b)[i],
        transcode_args(q, a)[4] == Arg::Path(WorkPath::Raw),
        transcode_args(q, a)[6] matches Arg::Word(filter) && filter@ == "scale=-2:"@ + decimal(
            lines(q),
        ) + ",format=yuv420p"@,
        transcode_args(q, a)[32] == Arg::Path(WorkPath::SegmentPattern(q)),
        transcode_args(q, a)[33] == Arg::Path(WorkPath::RenditionPlaylist(q)),
{
    law_renditions_go_by_their_lines(q);
}

/// The making of a rendition is described by its lines and its encoder.
pub proof fn law_labels_tell_lines_and_encoder(quality: Quality)
    ensures
        ({
            let front = decimal(lines(quality)) + "p "@;
            &&& transcode_label(quality, Encoder::Nvenc) == front + "NVENC"@ + " transcoding"@
            &&& transcode_label(quality, Encoder::VideoToolbox) == front + "VideoToolbox"@
                + " transcoding"@
            &&& transcode_label(quality, Encoder::Cpu) == front + "CPU"@ + " transcoding"@
        }),
{
    law_renditions_go_by_their_lines(quality);
    reveal_strlit("p");
    reveal_strlit("p ");
    reveal_strlit("NVENC");
    reveal_strlit("VideoToolbox");
    reveal_strlit("CPU");
    reveal_strlit(" transcoding");
    reveal_strlit(" NVENC transcoding");
    reveal_strlit(" VideoToolbox transcoding");
    reveal_strlit(" CPU transcoding");
    let front = decimal(lines(quality)) + "p "@;
    assert(transcode_label(quality, Encoder::Nvenc) =~= front + "NVENC"@ + " transcoding"@);
    assert(transcode_label(quality, Encoder::VideoToolbox) =~= front + "VideoToolbox"@
        + " transcoding"@);
    assert(transcode_label(quality, Encoder::Cpu) =~= front + "CPU"@ + " transcoding"@);
}

/// The height that is told by a row of digits is its positional value; a text with any other
/// character behind its first, an empty one, or one that tells too much counts as 1080 lines.
pub proof fn law_heights_are_told_by_digits(text: Seq<char>)
    ensures
        text.len() == 0 ==> told_height(text) == 1080,
        (exists|i: int| 1 <= i < text.len() && !('0' <= #[trigger] text[i] <= '9')) ==> told_height(
            text,
        ) == 1080,
        text.len() > 0 && (forall|i: int| 0 <= i < text.len() ==> '0' <= #[trigger] text[i] <= '9')
            ==> told_height(text) == if positional(text) < 0x8000_0000 {
            positional(text)
        } else {
            1080
        },
{
    if i32_value(text) is Some {
        law_only_numerals_are_read(text);
    }
    if text.len() > 0 && (forall|i: int|
        0 <= i < text.len() ==> '0' <= #[trigger] text[i] <= '9') {
        law_numerals_are_read(text);
    }
}

/// A height that `ffprobe` prints in digits, with white space around it, is the positional value
/// of the digits, and the renditions that are made are those for which it is high enough.
pub proof fn law_printed_digits_choose_the_renditions(
    before: Seq<char>,
    row: Seq<char>,
    behind: Seq<char>,
    stdout: &[u8],
    height: i32,
    qualities: Vec<Quality>,
)
    requires
        blank(before),
        blank(behind),
        row.len() > 0,
        forall|i: int| 0 <= i < row.len() ==> '0' <= #[trigger] row[i] <= '9',
        positional(row) < 0x8000_0000,
        stdout@ == encode_utf8(before + row + behind),
        call_ensures(probed_height, (stdout,), height),
        call_ensures(renditions_for, (height,), qualities),
    ensures
        height == positional(row),
        qualities@.contains(Quality::P1080) <==> positional(row) >= 1000,
        qualities@.contains(Quality::P720) <==> positional(row) >= 700,
        qualities@.contains(Quality::P480),
        qualities@.len() <= 3,
{
    assert('0' <= row[0] <= '9' && '0' <= row[row.len() - 1] <= '9');
    law_printed_text_is_read(before + row + behind);
    law_only_the_margins_are_trimmed(before, row, behind);
    law_numerals_are_read(row);
    law_ladder_goes_by_height(height as int);
}

/// The arguments that `ffmpeg` gets for a rendition: the encoder is the one that was asked for,
/// the source and the files are those of the job.
pub proof fn law_command_asks_for_its_encoder(quality: Quality, encoder: Encoder, args: Vec<Arg>)
    requires
        call_ensures(transcode_command, (quality, encoder), args),
    ensures
        args@.len() == 34,
        args@[4] == Arg::Path(WorkPath::Raw),
        args@[7] == Arg::Word("-c:v"),
        args@[8] == Arg::Word(
            match encoder {
                Encoder::Nvenc => "h264_nvenc",
                Encoder::VideoToolbox => "h264_videotoolbox",
                Encoder::Cpu => "libx264",
            },
        ),
        args@[32] == Arg::Path(WorkPath::SegmentPattern(quality)),
        args@[33] == Arg::Path(WorkPath::RenditionPlaylist(quality)),
{
}

} // verus!
