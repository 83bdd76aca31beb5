//! What a job puts into the store: keys, content types, disguised files and playlists.

use crate::api::{join, CompletePayload};
use crate::encoding::{base64_len, base64_text, standard_encode};
use crate::media::{ladder, quality_name, renditions_for, Quality};
use crate::number::{decimal, decimal_text};
use crate::pipeline::Folder;
use crate::text::{chars_of, replace_text, replaced, same_text, text_of};
use vstd::prelude::*;
use vstd::utf8::{encode_scalar, encode_utf8};

verus! {

/// How many files are put into the store at the same time.
pub const PARALLEL_UPLOADS: usize = 16;

/// The key under which a job keeps something in the store.
pub open spec fn job_key(id: i64, rest: Seq<char>) -> Seq<char> {
    "hls/"@ + decimal(id as int) + "/"@ + rest
}

/// The name of a published folder.
pub open spec fn folder_name(folder: Folder) -> Seq<char> {
    match folder {
        Folder::Thumbs => "thumbs"@,
        Folder::Rendition(quality) => quality_name(quality)@,
    }
}

/// The key of a published folder.
pub open spec fn folder_key(id: i64, folder: Folder) -> Seq<char> {
    job_key(id, folder_name(folder))
}

/// The key of a file in a published folder.
pub open spec fn object_key(prefix: Seq<char>, name: Seq<char>) -> Seq<char> {
    prefix + "/"@ + name
}

/// The key of the master playlist.
pub open spec fn master_key(id: i64) -> Seq<char> {
    job_key(id, "master.txt"@)
}

/// The public address of the master playlist.
pub open spec fn master_address(public_url: Seq<char>, id: i64) -> Seq<char> {
    public_url + "/"@ + master_key(id)
}

/// `i` is the position of the last dot of `name`.
pub open spec fn last_dot(name: Seq<char>, i: int) -> bool {
    &&& 0 <= i < name.len()
    &&& name[i] == '.'
    &&& forall|j: int| i < j < name.len() ==> name[j] != '.'
}

/// The last dot of a file name parts the stem from the extension, unless the name begins
/// with that dot or is `..`.
pub open spec fn parts_at(name: Seq<char>, i: int) -> bool {
    last_dot(name, i) && i > 0 && name != ".."@
}

/// The extension of a file name, if it has one.
pub open spec fn extension(name: Seq<char>) -> Option<Seq<char>> {
    if exists|i: int| parts_at(name, i) {
        let i = choose|i: int| parts_at(name, i);
        Some(name.skip(i + 1))
    } else {
        None
    }
}

/// A file name without its extension and the dot in front of it.
pub open spec fn stem(name: Seq<char>) -> Seq<char> {
    if exists|i: int| parts_at(name, i) {
        let i = choose|i: int| parts_at(name, i);
        name.take(i)
    } else {
        name
    }
}

/// What is done to a file of a rendition before it is published.
#[derive(Debug, Clone, Copy, PartialEq, Eq, Structural)]
pub enum Disguise {
    /// The file stays as it is.
    Keep,
    /// The file is a segment: it gets another name.
    Segment,
    /// The file is a playlist: its text is encoded and it gets another name.
    Playlist,
}

/// What is done to the file with the given name.
pub open spec fn disguise_for(name: Seq<char>) -> Disguise {
    if extension(name) == Some("ts"@) {
        Disguise::Segment
    } else if extension(name) == Some("m3u8"@) {
        Disguise::Playlist
    } else {
        Disguise::Keep
    }
}

/// The name under which a file is published.
pub open spec fn published_name(name: Seq<char>) -> Seq<char> {
    match disguise_for(name) {
        Disguise::Keep => name,
        Disguise::Segment => stem(name) + ".bin"@,
        Disguise::Playlist => stem(name) + ".txt"@,
    }
}

/// The content type of a published file, by its name.
pub open spec fn content_type_for(name: Seq<char>) -> Seq<char> {
    if extension(name) == Some("bin"@) {
        "video/mp2t"@
    } else if extension(name) == Some("txt"@) {
        "text/plain"@
    } else if extension(name) == Some("jpg"@) {
        "image/jpeg"@
    } else {
        "application/octet-stream"@
    }
}

/// The text of a playlist with the segments under the names that they are published by.
pub open spec fn relinked(playlist: Seq<char>) -> Seq<char> {
    replaced(playlist, ".ts"@, ".bin"@)
}

/// The line that describes a rendition in the master playlist.
pub open spec fn stream_info(quality: Quality) -> Seq<char> {
    match quality {
        Quality::P1080 => "#EXT-X-STREAM-INF:BANDWIDTH=5000000,RESOLUTION=1920x1080\n"@,
        Quality::P720 => "#EXT-X-STREAM-INF:BANDWIDTH=2500000,RESOLUTION=1280x720\n"@,
        Quality::P480 => "#EXT-X-STREAM-INF:BANDWIDTH=800000,RESOLUTION=854x480\n"@,
    }
}

/// The address of a rendition's playlist, relative to the master playlist.
pub open spec fn variant_uri(quality: Quality) -> Seq<char> {
    match quality {
        Quality::P1080 => "1080p/1080p.txt"@,
        Quality::P720 => "720p/720p.txt"@,
        Quality::P480 => "480p/480p.txt"@,
    }
}

/// The master playlist of some renditions.
pub open spec fn master_playlist(qualities: Seq<Quality>) -> Seq<char>
    decreases qualities.len(),
{
    if qualities.len() == 0 {
        "#EXTM3U\n#EXT-X-VERSION:3\n"@
    } else {
        master_playlist(qualities.drop_last()) + stream_info(qualities.last()) + variant_uri(
            qualities.last(),
        ) + "\n"@
    }
}

/// The key under which a job keeps something in the store.
fn key_in_job(id: i64, rest: &str) -> (key: String)
    ensures
        key@ == job_key(id, rest@),
{
    let mut key = join("hls/", decimal_text(id).as_str(), "/");
    key.append(rest);
    key
}

/// The key of a published folder.
pub fn folder_prefix(id: i64, folder: Folder) -> (prefix: String)
    ensures
        prefix@ == folder_key(id, folder),
{
    match folder {
        Folder::Thumbs => key_in_job(id, "thumbs"),
        Folder::Rendition(quality) => key_in_job(id, quality.name()),
    }
}

/// How something is put into the store.
#[derive(Debug)]
pub struct Upload {
    pub key: String,
    pub content_type: &'static str,
    /// How long others may keep a copy, where that is told.
    pub cache_control: Option<&'static str>,
}

/// How a file of a published folder is put into the store.
pub fn file_upload(prefix: &str, name: &str) -> (upload: Upload)
    ensures
        upload.key@ == object_key(prefix@, name@),
        upload.content_type@ == content_type_for(name@),
        upload.cache_control is None,
{
    Upload {
        key: join(prefix, "/", name),
        content_type: content_type(name),
        cache_control: None,
    }
}

/// How an entry of a published folder is put into the store: only files are.
pub fn entry_upload(is_file: bool, prefix: &str, name: &str) -> (upload: Option<Upload>)
    ensures
        match upload {
            Some(u) => {
                &&& is_file
                &&& u.key@ == object_key(prefix@, name@)
                &&& u.content_type@ == content_type_for(name@)
                &&& u.cache_control is None
            },
            None => !is_file,
        },
{
    if is_file {
        Some(file_upload(prefix, name))
    } else {
        None
    }
}

/// How the master playlist is put into the store.
pub fn master_upload(id: i64) -> (upload: Upload)
    ensures
        upload.key@ == master_key(id),
        upload.content_type@ == "text/plain"@,
        upload.cache_control == Some("max-age=0"),
{
    Upload {
        key: key_in_job(id, "master.txt"),
        content_type: "text/plain",
        cache_control: Some("max-age=0"),
    }
}

/// The public address of the master playlist.
fn master_url(public_url: &str, id: i64) -> (url: String)
    ensures
        url@ == master_address(public_url@, id),
{
    join(public_url, "/", key_in_job(id, "master.txt").as_str())
}

/// The body of the request that completes a job.
pub fn completion_payload(public_url: &str, id: i64) -> (payload: CompletePayload)
    ensures
        payload.hls_url@ == master_address(public_url@, id),
{
    CompletePayload { hls_url: master_url(public_url, id) }
}

/// The place of the dot that parts the stem of a file name from its extension.
fn extension_dot(chars: &Vec<char>) -> (dot: Option<usize>)
    ensures
        match dot {
            Some(i) => parts_at(chars@, i as int),
            None => forall|i: int| !parts_at(chars@, i),
        },
{
    proof {
        reveal_strlit("..");
    }
    if chars.len() == 2 && chars[0] == '.' && chars[1] == '.' {
        assert(chars@ =~= ".."@);
        return None;
    }
    assert(chars@ != ".."@) by {
        assert(".."@[0] == '.' && ".."@[1] == '.');
    }
    let mut i: usize = chars.len();
    while i > 1
        invariant
            i <= chars@.len(),
            chars@ != ".."@,
            forall|j: int| i <= j < chars@.len() ==> chars@[j] != '.',
        decreases i,
    {
        i = i - 1;
        if chars[i] == '.' {
            return Some(i);
        }
    }
    None
}

/// The extension of a file name, if it has one.
fn extension_text(name: &str) -> (ext: Option<String>)
    ensures
        match ext {
            Some(e) => extension(name@) == Some(e@),
            None => extension(name@) is None,
        },
{
    let chars = chars_of(name);
    match extension_dot(&chars) {
        Some(dot) => {
            let length: usize = chars.len();
            let ext = text_of(&chars, dot + 1, length);
            proof {
                lemma_parts(name@, dot as int);
            }
            assert(ext@ =~= name@.skip(dot + 1));
            Some(ext)
        },
        None => None,
    }
}

/// There is one place at which a file name is parted.
pub(crate) proof fn lemma_parts(name: Seq<char>, dot: int)
    requires
        parts_at(name, dot),
    ensures
        extension(name) == Some(name.skip(dot + 1)),
        stem(name) == name.take(dot),
{
    let i = choose|i: int| parts_at(name, i);
    assert(parts_at(name, i));
    assert(i == dot) by {
        if i < dot {
            assert(name[dot] != '.');
        } else if dot < i {
            assert(name[i] != '.');
        }
    }
}

/// What is done to the file with the given name.
pub fn disguise(name: &str) -> (what: Disguise)
    ensures
        what == disguise_for(name@),
{
    match extension_text(name) {
        Some(ext) => if same_text(ext.as_str(), "ts") {
            Disguise::Segment
        } else if same_text(ext.as_str(), "m3u8") {
            Disguise::Playlist
        } else {
            Disguise::Keep
        },
        None => Disguise::Keep,
    }
}

/// The name under which a file is published.
pub fn disguised_name(name: &str) -> (published: String)
    ensures
        published@ == published_name(name@),
{
    let what = disguise(name);
    let chars = chars_of(name);
    match extension_dot(&chars) {
        Some(dot) => {
            proof {
                lemma_parts(name@, dot as int);
            }
            let mut published = text_of(&chars, 0, dot);
            assert(published@ =~= name@.take(dot as int));
            match what {
                Disguise::Keep => {
                    return name.to_string();
                },
                Disguise::Segment => published.append(".bin"),
                Disguise::Playlist => published.append(".txt"),
            }
            published
        },
        None => name.to_string(),
    }
}

/// The content type of a published file, by its name.
pub fn content_type(name: &str) -> (kind: &'static str)
    ensures
        kind@ == content_type_for(name@),
{
    match extension_text(name) {
        Some(ext) => if same_text(ext.as_str(), "bin") {
            "video/mp2t"
        } else if same_text(ext.as_str(), "txt") {
            "text/plain"
        } else if same_text(ext.as_str(), "jpg") {
            "image/jpeg"
        } else {
            "application/octet-stream"
        },
        None => "application/octet-stream",
    }
}

/// The published form of a playlist can be held: it is no longer than an allocation can be.
pub open spec fn playlist_fits(playlist: Seq<char>) -> bool {
    base64_len(encode_utf8(relinked(playlist)).len() as int) <= isize::MAX
}

/// The published form of a rendition's playlist: the Base64 form of its text, with the
/// segments under their published names.
pub fn encoded_playlist(playlist: &str) -> (encoded: String)
    requires
        playlist_fits(playlist@),
    ensures
        encoded@ == base64_text(encode_utf8(relinked(playlist@))),
{
    proof {
        reveal_strlit(".ts");
    }
    standard_encode(replace_text(playlist, ".ts", ".bin").as_str())
}

/// The published form of a rendition's playlist, unless it is too long to be held.
pub fn checked_playlist(playlist: &str) -> (encoded: Option<String>)
    ensures
        match encoded {
            Some(e) => playlist_fits(playlist@) && e@ == base64_text(
                encode_utf8(relinked(playlist@)),
            ),
            None => !playlist_fits(playlist@),
        },
{
    proof {
        reveal_strlit(".ts");
    }
    let text = replace_text(playlist, ".ts", ".bin");
    let length: usize = text.as_str().as_bytes().len();
    if length <= isize::MAX as usize / 4 * 3 {
        Some(standard_encode(text.as_str()))
    } else {
        None
    }
}

/// The master playlist for a source of the given height.
pub fn master_text(height: i32) -> (playlist: String)
    ensures
        playlist@ == master_playlist(ladder(height as int)),
{
    let qualities = renditions_for(height);
    let mut playlist = "#EXTM3U\n#EXT-X-VERSION:3\n".to_string();
    let mut i: usize = 0;
    assert(qualities@.take(0) =~= Seq::<Quality>::empty());
    while i < qualities.len()
        invariant
            i <= qualities@.len(),
            playlist@ == master_playlist(qualities@.take(i as int)),
        decreases qualities@.len() - i,
    {
        let quality = qualities[i];
        let (info, uri) = match quality {
            Quality::P1080 => (
                "#EXT-X-STREAM-INF:BANDWIDTH=5000000,RESOLUTION=1920x1080\n",
                "1080p/1080p.txt",
            ),
            Quality::P720 => (
                "#EXT-X-STREAM-INF:BANDWIDTH=2500000,RESOLUTION=1280x720\n",
                "720p/720p.txt",
            ),
            Quality::P480 => (
                "#EXT-X-STREAM-INF:BANDWIDTH=800000,RESOLUTION=854x480\n",
                "480p/480p.txt",
            ),
        };
        playlist.append(info);
        playlist.append(uri);
        playlist.append("\n");
        assert(qualities@.take(i + 1).drop_last() =~= qualities@.take(i as int));
        i = i + 1;
    }
    assert(qualities@.take(i as int) =~= qualities@);
    playlist
}

/// A character takes at most four bytes of UTF-8.
proof fn lemma_utf8_length(chars: Seq<char>)
    ensures
        encode_utf8(chars).len() <= 4 * chars.len(),
    decreases chars.len(),
{
    if chars.len() > 0 {
        lemma_utf8_length(chars.drop_first());
        assert(encode_scalar(chars[0] as u32).len() <= 4);
    }
}

/// A master playlist is short.
proof fn lemma_master_length(height: int)
    ensures
        master_playlist(ladder(height)).len() <= 400,
{
    reveal_with_fuel(master_playlist, 4);
    reveal_strlit("#EXTM3U\n#EXT-X-VERSION:3\n");
    reveal_strlit("#EXT-X-STREAM-INF:BANDWIDTH=5000000,RESOLUTION=1920x1080\n");
    reveal_strlit("#EXT-X-STREAM-INF:BANDWIDTH=2500000,RESOLUTION=1280x720\n");
    reveal_strlit("#EXT-X-STREAM-INF:BANDWIDTH=800000,RESOLUTION=854x480\n");
    reveal_strlit("1080p/1080p.txt");
    reveal_strlit("720p/720p.txt");
    reveal_strlit("480p/480p.txt");
    reveal_strlit("\n");
}

/// The published form of the master playlist for a source of the given height.
pub fn encoded_master(height: i32) -> (encoded: String)
    ensures
        encoded@ == base64_text(encode_utf8(master_playlist(ladder(height as int)))),
{
    proof {
        lemma_master_length(height as int);
        lemma_utf8_length(master_playlist(ladder(height as int)));
    }
    standard_encode(master_text(height).as_str())
}

/// A playlist can be published unless its published form is longer than an allocation can be:
/// nothing else stands in the way.
pub proof fn law_playlists_fit_in_memory(playlist: Seq<char>)
    ensures
        playlist_fits(playlist) <==> encode_utf8(relinked(playlist)).len() <= isize::MAX / 4 * 3,
{
}

} // verus!
