//! How the published files of a job refer to each other, and how their keys stay apart.

use crate::api::CompletePayload;
use crate::encoding::{base64_text, law_encoded_text_injective};
use crate::media::{
    ladder, law_ladder_goes_by_height, law_renditions_go_by_their_lines, lines, path_steps,
    quality_name, Quality, WorkPath,
};
use crate::number::{decimal, is_digit, law_decimal_injective, lemma_decimal_chars};
use crate::pipeline::Folder;
use crate::publish::{
    checked_playlist, completion_payload, content_type, content_type_for, disguise, disguise_for,
    disguised_name, encoded_master, entry_upload, extension, folder_key, folder_name,
    folder_prefix, job_key, law_playlists_fit_in_memory, lemma_parts, master_address,
    master_key, master_playlist, master_text, master_upload, object_key, parts_at, published_name,
    relinked, stem, stream_info, variant_uri, Disguise, Upload,
};
use crate::text::{
    contains, law_nothing_else_is_replaced, occurs_at, replaced, starts_with,
};
use vstd::prelude::*;
use vstd::utf8::encode_utf8;

verus! {

/// The first character of a relinked text.
proof fn lemma_relinked_first(text: Seq<char>)
    requires
        text.len() > 0,
    ensures
        relinked(text).len() > 0,
        relinked(text)[0] == text[0],
{
    reveal_strlit(".ts");
    reveal_strlit(".bin");
    if starts_with(text, ".ts"@) {
        assert(text.subrange(0, 3)[0] == text[0]);
    }
}

/// A relinked playlist names no segment by the name that `ffmpeg` gave it.
pub proof fn law_relinked_has_no_segment_names(playlist: Seq<char>)
    ensures
        !contains(relinked(playlist), ".ts"@),
    decreases playlist.len(),
{
    reveal_strlit(".ts");
    reveal_strlit(".bin");
    let text = relinked(playlist);
    assert forall|i: int| !occurs_at(text, ".ts"@, i) by {
        if occurs_at(text, ".ts"@, i) {
            let found = text.subrange(i, i + 3);
            assert(found[0] == text[i] && found[1] == text[i + 1] && found[2] == text[i + 2]);
            assert(text[i] == '.' && text[i + 1] == 't' && text[i + 2] == 's');
            if playlist.len() < 3 {
            } else if starts_with(playlist, ".ts"@) {
                let rest = relinked(playlist.skip(3));
                law_relinked_has_no_segment_names(playlist.skip(3));
                assert(text == ".bin"@ + rest);
                assert(i >= 4);
                assert(rest.subrange(i - 4, i - 1) =~= found);
                assert(occurs_at(rest, ".ts"@, i - 4));
            } else {
                let rest = relinked(playlist.skip(1));
                law_relinked_has_no_segment_names(playlist.skip(1));
                assert(text == seq![playlist[0]] + rest);
                if i > 0 {
                    assert(rest.subrange(i - 1, i + 2) =~= found);
                    assert(occurs_at(rest, ".ts"@, i - 1));
                } else {
                    lemma_relinked_first(playlist.skip(1));
                    assert(playlist[1] == 't');
                    let tail = playlist.skip(1);
                    if tail.len() >= 3 {
                        assert(!starts_with(tail, ".ts"@)) by {
                            if starts_with(tail, ".ts"@) {
                                assert(tail.subrange(0, 3)[0] == tail[0]);
                            }
                        }
                        lemma_relinked_first(tail.skip(1));
                        assert(rest[1] == relinked(tail.skip(1))[0]);
                    }
                    assert(playlist[2] == 's');
                    assert(playlist.subrange(0, 3) =~= ".ts"@);
                }
            }
        }
    }
}

/// Relinking can be undone: a playlist that names no published segment is had back by replacing
/// the names the other way round.
pub proof fn law_relinking_is_undone(playlist: Seq<char>)
    requires
        !contains(playlist, ".bin"@),
    ensures
        replaced(relinked(playlist), ".bin"@, ".ts"@) == playlist,
    decreases playlist.len(),
{
    reveal_strlit(".ts");
    reveal_strlit(".bin");
    let text = relinked(playlist);
    if playlist.len() < 3 {
    } else if starts_with(playlist, ".ts"@) {
        let rest = playlist.skip(3);
        lemma_no_published_name(playlist, 3);
        law_relinking_is_undone(rest);
        assert(text == ".bin"@ + relinked(rest));
        assert(text.subrange(0, 4) =~= ".bin"@);
        assert(text.skip(4) =~= relinked(rest));
        assert(playlist =~= playlist.subrange(0, 3) + rest);
    } else {
        let rest = playlist.skip(1);
        lemma_no_published_name(playlist, 1);
        law_relinking_is_undone(rest);
        assert(text == seq![playlist[0]] + relinked(rest));
        assert(text.skip(1) =~= relinked(rest));
        assert(playlist =~= seq![playlist[0]] + rest);
        assert(!starts_with(text, ".bin"@)) by {
            if starts_with(text, ".bin"@) {
                let found = text.subrange(0, 4);
                assert(found[0] == text[0] && found[1] == text[1]);
                assert(found[2] == text[2] && found[3] == text[3]);
                lemma_relinked_word(rest, 3);
                assert(playlist.subrange(0, 4) =~= found);
                assert(occurs_at(playlist, ".bin"@, 0));
            }
        }
        if text.len() < 4 {
            assert(replaced(relinked(rest), ".bin"@, ".ts"@) == relinked(rest));
        }
    }
}

/// A text keeps on naming no published segment when its beginning is taken away.
proof fn lemma_no_published_name(text: Seq<char>, n: int)
    requires
        !contains(text, ".bin"@),
        0 <= n <= text.len(),
    ensures
        !contains(text.skip(n), ".bin"@),
{
    reveal_strlit(".bin");
    if contains(text.skip(n), ".bin"@) {
        let i = choose|i: int| occurs_at(text.skip(n), ".bin"@, i);
        assert(text.subrange(i + n, i + n + 4) =~= text.skip(n).subrange(i, i + 4));
        assert(occurs_at(text, ".bin"@, i + n));
    }
}

/// A relinked text that begins with `n` characters other than dots has them from the text.
proof fn lemma_relinked_word(text: Seq<char>, n: nat)
    requires
        n <= relinked(text).len(),
        forall|i: int| 0 <= i < n ==> relinked(text)[i] != '.',
    ensures
        n <= text.len(),
        forall|i: int| 0 <= i < n ==> text[i] == relinked(text)[i],
    decreases n,
{
    reveal_strlit(".ts");
    if n > 0 && text.len() >= 3 {
        lemma_relinked_first(text);
        assert(!starts_with(text, ".ts"@)) by {
            if starts_with(text, ".ts"@) {
                assert(text.subrange(0, 3)[0] == text[0]);
            }
        }
        let rest = text.skip(1);
        assert(relinked(text) == seq![text[0]] + relinked(rest));
        assert(forall|i: int| 0 <= i < n - 1 ==> relinked(rest)[i] == relinked(text)[i + 1]);
        lemma_relinked_word(rest, (n - 1) as nat);
        assert forall|i: int| 0 <= i < n implies text[i] == relinked(text)[i] by {
            if i > 0 {
                assert(rest[i - 1] == relinked(rest)[i - 1]);
            }
        }
    }
}

/// Relinking works line by line.
pub proof fn law_relinked_by_line(line: Seq<char>, rest: Seq<char>)
    ensures
        relinked(line + "\n"@ + rest) == relinked(line) + "\n"@ + relinked(rest),
    decreases line.len(),
{
    reveal_strlit(".ts");
    reveal_strlit(".bin");
    reveal_strlit("\n");
    let text = line + "\n"@ + rest;
    if line.len() == 0 {
        assert(text[0] == '\n');
        assert(!starts_with(text, ".ts"@)) by {
            if starts_with(text, ".ts"@) {
                assert(text.subrange(0, 3)[0] == text[0]);
            }
        }
        assert(text.skip(1) =~= rest);
        if text.len() < 3 {
            assert(relinked(rest) == rest);
        }
        assert(relinked(text) =~= relinked(line) + "\n"@ + relinked(rest));
    } else {
        assert(starts_with(text, ".ts"@) <==> starts_with(line, ".ts"@)) by {
            if starts_with(text, ".ts"@) {
                let found = text.subrange(0, 3);
                assert(found[0] == text[0] && found[1] == text[1] && found[2] == text[2]);
                assert(line.len() >= 3) by {
                    assert(text[line.len() as int] == '\n');
                }
                assert(line.subrange(0, 3) =~= found);
            }
            if starts_with(line, ".ts"@) {
                assert(text.subrange(0, 3) =~= line.subrange(0, 3));
            }
        }
        if starts_with(line, ".ts"@) {
            law_relinked_by_line(line.skip(3), rest);
            assert(text.skip(3) =~= line.skip(3) + "\n"@ + rest);
            assert(relinked(text) =~= relinked(line) + "\n"@ + relinked(rest));
        } else {
            law_relinked_by_line(line.skip(1), rest);
            assert(text.skip(1) =~= line.skip(1) + "\n"@ + rest);
            if line.len() < 3 {
                assert(relinked(line.skip(1)) == line.skip(1));
            }
            if text.len() < 3 {
                assert(relinked(text.skip(1)) == text.skip(1));
            }
            assert(relinked(text) =~= relinked(line) + "\n"@ + relinked(rest));
        }
    }
}

/// A text that names no segment, followed by a dot and more, is relinked from that dot on.
proof fn lemma_relinked_after_plain(plain: Seq<char>, tail: Seq<char>)
    requires
        !contains(plain, ".ts"@),
        tail.len() > 0,
        tail[0] == '.',
    ensures
        relinked(plain + tail) == plain + relinked(tail),
    decreases plain.len(),
{
    reveal_strlit(".ts");
    reveal_strlit(".bin");
    let text = plain + tail;
    if plain.len() == 0 {
        assert(text =~= tail);
        assert(plain + relinked(tail) =~= relinked(tail));
    } else {
        assert(!starts_with(text, ".ts"@)) by {
            if starts_with(text, ".ts"@) {
                let found = text.subrange(0, 3);
                assert(found[0] == text[0] && found[1] == text[1] && found[2] == text[2]);
                assert(text[plain.len() as int] == '.');
                assert(plain.subrange(0, 3) =~= found);
                assert(occurs_at(plain, ".ts"@, 0));
            }
        }
        assert(!contains(plain.skip(1), ".ts"@)) by {
            if contains(plain.skip(1), ".ts"@) {
                let i = choose|i: int| occurs_at(plain.skip(1), ".ts"@, i);
                assert(plain.subrange(i + 1, i + 4) =~= plain.skip(1).subrange(i, i + 3));
                assert(occurs_at(plain, ".ts"@, i + 1));
            }
        }
        lemma_relinked_after_plain(plain.skip(1), tail);
        assert(text.skip(1) =~= plain.skip(1) + tail);
        if text.len() < 3 {
            assert(relinked(text.skip(1)) == text.skip(1));
        }
        assert(relinked(text) =~= plain + relinked(tail));
    }
}

/// A name that ends in a dot and a plain extension is parted at that dot.
proof fn lemma_named(front: Seq<char>, dotted: Seq<char>)
    requires
        front.len() > 0,
        dotted.len() > 1,
        dotted[0] == '.',
        forall|i: int| 1 <= i < dotted.len() ==> dotted[i] != '.',
    ensures
        extension(front + dotted) == Some(dotted.skip(1)),
        stem(front + dotted) == front,
{
    reveal_strlit("..");
    let name = front + dotted;
    assert(name.len() > ".."@.len());
    assert(parts_at(name, front.len() as int));
    lemma_parts(name, front.len() as int);
    assert(name.skip(front.len() as int + 1) =~= dotted.skip(1));
    assert(name.take(front.len() as int) =~= front);
}

/// A playlist refers to a segment by the name under which the segment is published.
pub proof fn law_segments_are_linked(front: Seq<char>)
    requires
        front.len() > 0,
        !contains(front, ".ts"@),
    ensures
        disguise_for(front + ".ts"@) == Disguise::Segment,
        relinked(front + ".ts"@) == published_name(front + ".ts"@),
{
    reveal_strlit(".ts");
    reveal_strlit(".bin");
    reveal_strlit("ts");
    lemma_named(front, ".ts"@);
    assert(".ts"@.skip(1) =~= "ts"@);
    lemma_relinked_after_plain(front, ".ts"@);
    assert(".ts"@.subrange(0, 3) =~= ".ts"@);
    assert(".ts"@.skip(3) =~= Seq::<char>::empty());
    assert(relinked(Seq::<char>::empty()) =~= Seq::<char>::empty());
    assert(relinked(".ts"@) =~= ".bin"@);
}

/// The segments that `ffmpeg` names after the pattern of a rendition, with digits in the
/// place of `%03d`, are found under the names by which the published playlist calls them.
pub proof fn law_rendition_segments_are_linked(quality: Quality, number: Seq<char>)
    requires
        forall|i: int| 0 <= i < number.len() ==> is_digit(#[trigger] number[i]),
    ensures
        path_steps(WorkPath::SegmentPattern(quality)).last()@ == quality_name(quality)@ + "_%03d"@
            + ".ts"@,
        ({
            let segment = quality_name(quality)@ + "_"@ + number + ".ts"@;
            &&& disguise_for(segment) == Disguise::Segment
            &&& relinked(segment) == published_name(segment)
        }),
{
    reveal_strlit(".ts");
    reveal_strlit("_");
    reveal_strlit("_%03d");
    reveal_strlit("1080p");
    reveal_strlit("720p");
    reveal_strlit("480p");
    reveal_strlit("1080p_%03d.ts");
    reveal_strlit("720p_%03d.ts");
    reveal_strlit("480p_%03d.ts");
    assert(path_steps(WorkPath::SegmentPattern(quality)).last()@ =~= quality_name(quality)@
        + "_%03d"@ + ".ts"@);
    let name = quality_name(quality)@;
    let front = name + "_"@ + number;
    assert(!contains(front, ".ts"@)) by {
        if contains(front, ".ts"@) {
            let i = choose|i: int| occurs_at(front, ".ts"@, i);
            assert(front.subrange(i, i + 3)[0] == front[i]);
            if i > name.len() {
                assert(is_digit(number[i - name.len() - 1]));
            }
        }
    }
    law_segments_are_linked(front);
}

/// A file is disguised once: under its published name it is left as it is, a segment is
/// served as video and a playlist as plain text.
pub proof fn law_disguise_settles(name: Seq<char>)
    ensures
        disguise_for(published_name(name)) == Disguise::Keep,
        disguise_for(name) == Disguise::Segment ==> content_type_for(published_name(name))
            == "video/mp2t"@,
        disguise_for(name) == Disguise::Playlist ==> content_type_for(published_name(name))
            == "text/plain"@,
{
    reveal_strlit("ts");
    reveal_strlit("m3u8");
    reveal_strlit("bin");
    reveal_strlit("txt");
    reveal_strlit(".bin");
    reveal_strlit(".txt");
    if disguise_for(name) != Disguise::Keep {
        let i = choose|i: int| parts_at(name, i);
        assert(parts_at(name, i));
        lemma_parts(name, i);
        assert(".bin"@.skip(1) =~= "bin"@);
        assert(".txt"@.skip(1) =~= "txt"@);
        lemma_named(stem(name), ".bin"@);
        lemma_named(stem(name), ".txt"@);
        assert("bin"@[0] == 'b' && "txt"@[1] == 'x' && "ts"@.len() == 2 && "m3u8"@.len() == 4);
    }
}

/// What a player decodes is what was encoded: a relinked playlist can be told from its
/// published form.
pub proof fn law_published_playlist_is_readable(a: Seq<char>, b: Seq<char>)
    requires
        base64_text(encode_utf8(relinked(a))) == base64_text(encode_utf8(relinked(b))),
    ensures
        relinked(a) == relinked(b),
{
    law_encoded_text_injective(relinked(a), relinked(b));
}

/// The master playlist leads to the playlists of its renditions: the address that it gives
/// for a rendition, taken relative to its own key, is the key under which the playlist that
/// `ffmpeg` wrote for that rendition is published.
pub proof fn law_master_leads_to_renditions(id: i64, quality: Quality)
    ensures
        ({
            let file = path_steps(WorkPath::RenditionPlaylist(quality)).last()@;
            &&& disguise_for(file) == Disguise::Playlist
            &&& object_key(folder_key(id, Folder::Rendition(quality)), published_name(file))
                == job_key(id, variant_uri(quality))
        }),
{
    reveal_strlit("m3u8");
    reveal_strlit("ts");
    reveal_strlit("/");
    reveal_strlit(".txt");
    reveal_strlit("1080p");
    reveal_strlit("720p");
    reveal_strlit("480p");
    reveal_strlit("1080p.m3u8");
    reveal_strlit("720p.m3u8");
    reveal_strlit("480p.m3u8");
    reveal_strlit("1080p/1080p.txt");
    reveal_strlit("720p/720p.txt");
    reveal_strlit("480p/480p.txt");
    let file = path_steps(WorkPath::RenditionPlaylist(quality)).last()@;
    let name = quality_name(quality)@;
    let ending = seq!['.', 'm', '3', 'u', '8'];
    assert(file =~= name + ending);
    lemma_named(name, ending);
    assert(ending.skip(1) =~= "m3u8"@);
    assert(published_name(file) =~= name + ".txt"@);
    assert(variant_uri(quality) =~= name + "/"@ + published_name(file));
    assert(object_key(folder_key(id, Folder::Rendition(quality)), published_name(file))
        =~= job_key(id, variant_uri(quality)));
}

/// Two texts that agree, each of which is a part without a slash, a slash and a rest, agree
/// in the part and in the rest.
proof fn lemma_slash_parts(a: Seq<char>, x: Seq<char>, b: Seq<char>, y: Seq<char>)
    requires
        forall|i: int| 0 <= i < a.len() ==> a[i] != '/',
        forall|i: int| 0 <= i < b.len() ==> b[i] != '/',
        a + "/"@ + x == b + "/"@ + y,
    ensures
        a == b,
        x == y,
{
    reveal_strlit("/");
    let left = a + "/"@ + x;
    let right = b + "/"@ + y;
    assert(left[a.len() as int] == '/');
    assert(right[b.len() as int] == '/');
    assert(a.len() == b.len()) by {
        if a.len() < b.len() {
            assert(right[a.len() as int] == b[a.len() as int]);
        } else if b.len() < a.len() {
            assert(left[b.len() as int] == a[b.len() as int]);
        }
    }
    assert(a =~= left.take(a.len() as int));
    assert(b =~= right.take(b.len() as int));
    assert(x =~= left.skip(a.len() as int + 1));
    assert(y =~= right.skip(b.len() as int + 1));
}

/// The key of a job tells the job and what is kept under it.
pub proof fn law_job_keys_apart(a: i64, x: Seq<char>, b: i64, y: Seq<char>)
    requires
        job_key(a, x) == job_key(b, y),
    ensures
        a == b,
        x == y,
{
    reveal_strlit("hls/");
    let left = decimal(a as int) + "/"@ + x;
    let right = decimal(b as int) + "/"@ + y;
    assert(left =~= job_key(a, x).skip(4));
    assert(right =~= job_key(b, y).skip(4));
    lemma_decimal_chars(a as int);
    lemma_decimal_chars(b as int);
    assert forall|i: int| 0 <= i < decimal(a as int).len() implies decimal(a as int)[i] != '/' by {
        assert(is_digit(decimal(a as int)[i]) || decimal(a as int)[i] == '-');
    }
    assert forall|i: int| 0 <= i < decimal(b as int).len() implies decimal(b as int)[i] != '/' by {
        assert(is_digit(decimal(b as int)[i]) || decimal(b as int)[i] == '-');
    }
    lemma_slash_parts(decimal(a as int), x, decimal(b as int), y);
    law_decimal_injective(a as int, b as int);
}

/// Folder names are apart from each other and hold no slash.
proof fn lemma_folder_names(f: Folder, g: Folder)
    ensures
        forall|i: int| 0 <= i < folder_name(f).len() ==> folder_name(f)[i] != '/',
        folder_name(f) == folder_name(g) ==> f == g,
{
    reveal_strlit("thumbs");
    reveal_strlit("1080p");
    reveal_strlit("720p");
    reveal_strlit("480p");
    if folder_name(f) == folder_name(g) {
        assert(folder_name(f)[0] == folder_name(g)[0]);
    }
}

/// No two files share a key: the key of a published file tells its job, its folder and its
/// name.
pub proof fn law_file_keys_apart(
    a: i64,
    f: Folder,
    x: Seq<char>,
    b: i64,
    g: Folder,
    y: Seq<char>,
)
    requires
        object_key(folder_key(a, f), x) == object_key(folder_key(b, g), y),
    ensures
        a == b,
        f == g,
        x == y,
{
    let left = folder_name(f) + "/"@ + x;
    let right = folder_name(g) + "/"@ + y;
    assert(object_key(folder_key(a, f), x) =~= job_key(a, left));
    assert(object_key(folder_key(b, g), y) =~= job_key(b, right));
    law_job_keys_apart(a, left, b, right);
    lemma_folder_names(f, g);
    lemma_folder_names(g, f);
    lemma_slash_parts(folder_name(f), x, folder_name(g), y);
}

/// The master playlist shares its key with no file of a folder.
pub proof fn law_master_key_apart(a: i64, b: i64, folder: Folder, name: Seq<char>)
    ensures
        master_key(a) != object_key(folder_key(b, folder), name),
{
    if master_key(a) == object_key(folder_key(b, folder), name) {
        let rest = folder_name(folder) + "/"@ + name;
        assert(object_key(folder_key(b, folder), name) =~= job_key(b, rest));
        law_job_keys_apart(a, "master.txt"@, b, rest);
        reveal_strlit("master.txt");
        reveal_strlit("thumbs");
        reveal_strlit("1080p");
        reveal_strlit("720p");
        reveal_strlit("480p");
        assert(rest[0] == folder_name(folder)[0]);
    }
}

/// A rendition that the master playlist is made of is listed in it.
proof fn lemma_listed(qualities: Seq<Quality>, j: int)
    requires
        0 <= j < qualities.len(),
    ensures
        contains(master_playlist(qualities), "\n"@ + variant_uri(qualities[j]) + "\n"@),
    decreases qualities.len(),
{
    reveal_strlit("\n");
    reveal_strlit("#EXT-X-STREAM-INF:BANDWIDTH=5000000,RESOLUTION=1920x1080\n");
    reveal_strlit("#EXT-X-STREAM-INF:BANDWIDTH=2500000,RESOLUTION=1280x720\n");
    reveal_strlit("#EXT-X-STREAM-INF:BANDWIDTH=800000,RESOLUTION=854x480\n");
    let line = "\n"@ + variant_uri(qualities[j]) + "\n"@;
    let text = master_playlist(qualities);
    let before = master_playlist(qualities.drop_last());
    let info = stream_info(qualities.last());
    if j == qualities.len() - 1 {
        let i = before.len() + info.len() - 1;
        assert(info.last() == '\n');
        assert(text.subrange(i, i + line.len()) =~= line);
        assert(occurs_at(text, line, i));
    } else {
        lemma_listed(qualities.drop_last(), j);
        let i = choose|i: int| occurs_at(before, line, i);
        assert(text.subrange(i, i + line.len()) =~= before.subrange(i, i + line.len()));
        assert(occurs_at(text, line, i));
    }
}

/// The lines of a master playlist begin with a hash or with the address of a rendition that
/// it is made of.
proof fn lemma_lines_begin(qualities: Seq<Quality>, i: int)
    requires
        0 <= i < master_playlist(qualities).len() - 1,
        master_playlist(qualities)[i] == '\n',
    ensures
        ({
            let c = master_playlist(qualities)[i + 1];
            c == '#' || exists|j: int|
                0 <= j < qualities.len() && c == variant_uri(#[trigger] qualities[j])[0]
        }),
    decreases qualities.len(),
{
    reveal_strlit("\n");
    reveal_strlit("#EXTM3U\n#EXT-X-VERSION:3\n");
    reveal_strlit("#EXT-X-STREAM-INF:BANDWIDTH=5000000,RESOLUTION=1920x1080\n");
    reveal_strlit("#EXT-X-STREAM-INF:BANDWIDTH=2500000,RESOLUTION=1280x720\n");
    reveal_strlit("#EXT-X-STREAM-INF:BANDWIDTH=800000,RESOLUTION=854x480\n");
    reveal_strlit("1080p/1080p.txt");
    reveal_strlit("720p/720p.txt");
    reveal_strlit("480p/480p.txt");
    let text = master_playlist(qualities);
    if qualities.len() > 0 {
        let before = master_playlist(qualities.drop_last());
        let info = stream_info(qualities.last());
        let uri = variant_uri(qualities.last());
        if i < before.len() - 1 {
            lemma_lines_begin(qualities.drop_last(), i);
            let c = text[i + 1];
            if c != '#' {
                let j = choose|j: int|
                    0 <= j < qualities.drop_last().len() && c == variant_uri(
                        #[trigger] qualities.drop_last()[j],
                    )[0];
                assert(qualities[j] == qualities.drop_last()[j]);
            }
        } else if i < before.len() {
            assert(text[i + 1] == info[0]);
        } else if i < before.len() + info.len() {
            assert(text[i] == info[i - before.len()]);
            assert(i == before.len() + info.len() - 1);
            assert(text[i + 1] == uri[0]);
            assert(qualities[qualities.len() - 1] == qualities.last());
        } else {
            assert(text[i] == uri[i - before.len() - info.len()]);
        }
    }
}

/// The master playlist lists the renditions of the ladder, each with its address on a line
/// of its own, and no others.
pub proof fn law_master_lists_the_ladder(height: int, quality: Quality)
    ensures
        contains(master_playlist(ladder(height)), "\n"@ + variant_uri(quality) + "\n"@)
            <==> ladder(height).contains(quality),
{
    let qualities = ladder(height);
    let text = master_playlist(qualities);
    let line = "\n"@ + variant_uri(quality) + "\n"@;
    if qualities.contains(quality) {
        let j = choose|j: int| 0 <= j < qualities.len() && qualities[j] == quality;
        lemma_listed(qualities, j);
    }
    if contains(text, line) {
        reveal_strlit("\n");
        reveal_strlit("1080p/1080p.txt");
        reveal_strlit("720p/720p.txt");
        reveal_strlit("480p/480p.txt");
        let i = choose|i: int| occurs_at(text, line, i);
        let found = text.subrange(i, i + line.len());
        assert(found[0] == text[i] && found[1] == text[i + 1]);
        lemma_lines_begin(qualities, i);
        let j = choose|j: int|
            0 <= j < qualities.len() && text[i + 1] == variant_uri(#[trigger] qualities[j])[0];
        assert(qualities[j] == quality);
    }
}

/// Relinking goes from the left: what stands before the first segment name stays, the name gets
/// its new ending, and what is behind it is gone through in the same way.
pub proof fn law_every_segment_name_is_relinked(front: Seq<char>, rest: Seq<char>)
    requires
        !contains(front, ".ts"@),
    ensures
        relinked(front) == front,
        relinked(front + ".ts"@ + rest) == front + ".bin"@ + relinked(rest),
{
    reveal_strlit(".ts");
    reveal_strlit(".bin");
    law_nothing_else_is_replaced(front, ".ts"@, ".bin"@);
    let tail = ".ts"@ + rest;
    lemma_relinked_after_plain(front, tail);
    assert(front + ".ts"@ + rest =~= front + tail);
    assert(tail.subrange(0, 3) =~= ".ts"@);
    assert(tail.skip(3) =~= rest);
    assert(front + ".bin"@ + relinked(rest) =~= front + (".bin"@ + relinked(rest)));
}

/// The extension of a file name is what follows its last dot, and the stem is what is before it.
/// A name whose only dot is in front has no extension, nor has one without a dot.
pub proof fn law_extension_follows_the_last_dot(front: Seq<char>, ext: Seq<char>)
    requires
        forall|i: int| 0 <= i < ext.len() ==> #[trigger] ext[i] != '.',
        !(front == seq!['.'] && ext.len() == 0),
    ensures
        front.len() > 0 ==> extension(front + seq!['.'] + ext) == Some(ext) && stem(
            front + seq!['.'] + ext,
        ) == front,
        extension(seq!['.'] + ext) is None,
        extension(ext) is None,
        extension(".."@) is None,
{
    reveal_strlit("..");
    let name = front + seq!['.'] + ext;
    if front.len() > 0 {
        let dot = front.len() as int;
        assert(name != ".."@) by {
            if name == ".."@ {
                assert(name.len() == 2);
                assert(front =~= seq!['.']) by {
                    assert(name[0] == front[0]);
                }
            }
        }
        assert(parts_at(name, dot));
        lemma_parts(name, dot);
        assert(name.skip(dot + 1) =~= ext);
        assert(name.take(dot) =~= front);
    }
    let hidden = seq!['.'] + ext;
    assert forall|i: int| !parts_at(hidden, i) by {
        if 0 < i < hidden.len() {
            assert(hidden[i] == ext[i - 1]);
        }
    }
    assert forall|i: int| !parts_at(ext, i) by {
        if 0 <= i < ext.len() {
            assert(ext[i] != '.');
        }
    }
}

/// A name does not end in the given text.
pub open spec fn ends_otherwise(name: Seq<char>, ending: Seq<char>) -> bool {
    name.len() < ending.len() || name.skip(name.len() - ending.len()) != ending
}

/// An extension of a name stands at its end, behind a dot and something more.
proof fn lemma_extension_is_the_end(name: Seq<char>, ext: Seq<char>)
    requires
        extension(name) == Some(ext),
    ensures
        name.len() > ext.len() + 1,
        name.skip(name.len() - ext.len() - 1) == seq!['.'] + ext,
{
    let i = choose|i: int| parts_at(name, i);
    assert(parts_at(name, i));
    lemma_parts(name, i);
    assert(name.skip(i) =~= seq!['.'] + ext);
}

/// Every file that ends in `.ts` is a segment and every file that ends in `.m3u8` is a playlist,
/// whatever stands before, and it is published with the other ending.
pub proof fn law_files_go_by_their_ending(front: Seq<char>)
    requires
        front.len() > 0,
    ensures
        disguise_for(front + ".ts"@) == Disguise::Segment,
        published_name(front + ".ts"@) == front + ".bin"@,
        disguise_for(front + ".m3u8"@) == Disguise::Playlist,
        published_name(front + ".m3u8"@) == front + ".txt"@,
        content_type_for(front + ".bin"@) == "video/mp2t"@,
        content_type_for(front + ".txt"@) == "text/plain"@,
        content_type_for(front + ".jpg"@) == "image/jpeg"@,
{
    reveal_strlit(".ts");
    reveal_strlit("ts");
    reveal_strlit(".m3u8");
    reveal_strlit("m3u8");
    reveal_strlit(".bin");
    reveal_strlit("bin");
    reveal_strlit(".txt");
    reveal_strlit("txt");
    reveal_strlit(".jpg");
    reveal_strlit("jpg");
    lemma_named(front, ".ts"@);
    lemma_named(front, ".m3u8"@);
    lemma_named(front, ".bin"@);
    lemma_named(front, ".txt"@);
    lemma_named(front, ".jpg"@);
    assert(".ts"@.skip(1) =~= "ts"@);
    assert(".m3u8"@.skip(1) =~= "m3u8"@);
    assert(".bin"@.skip(1) =~= "bin"@);
    assert(".txt"@.skip(1) =~= "txt"@);
    assert(".jpg"@.skip(1) =~= "jpg"@);
    assert("ts"@.len() == 2 && "m3u8"@.len() == 4);
    assert("bin"@[0] == 'b' && "txt"@[0] == 't' && "jpg"@[0] == 'j');
}

/// A file with another ending is published as it is, and one that ends otherwise than in `.bin`,
/// `.txt` and `.jpg` is served as plain bytes.
pub proof fn law_other_files_stay_as_they_are(name: Seq<char>)
    ensures
        ends_otherwise(name, ".ts"@) && ends_otherwise(name, ".m3u8"@) ==> {
            &&& disguise_for(name) == Disguise::Keep
            &&& published_name(name) == name
        },
        ends_otherwise(name, ".bin"@) && ends_otherwise(name, ".txt"@) && ends_otherwise(
            name,
            ".jpg"@,
        ) ==> content_type_for(name) == "application/octet-stream"@,
{
    reveal_strlit(".ts");
    reveal_strlit("ts");
    reveal_strlit(".m3u8");
    reveal_strlit("m3u8");
    reveal_strlit(".bin");
    reveal_strlit("bin");
    reveal_strlit(".txt");
    reveal_strlit("txt");
    reveal_strlit(".jpg");
    reveal_strlit("jpg");
    assert(seq!['.'] + "ts"@ =~= ".ts"@);
    assert(seq!['.'] + "m3u8"@ =~= ".m3u8"@);
    assert(seq!['.'] + "bin"@ =~= ".bin"@);
    assert(seq!['.'] + "txt"@ =~= ".txt"@);
    assert(seq!['.'] + "jpg"@ =~= ".jpg"@);
    if extension(name) is Some {
        lemma_extension_is_the_end(name, extension(name)->0);
    }
}

/// The keys of a job are spelled with its number, and that of a rendition's file with the lines of
/// the rendition; the address of the master playlist is its key under the public address.
pub proof fn law_keys_are_spelled(id: i64, quality: Quality, name: Seq<char>, public: Seq<char>)
    ensures
        ({
            let front = "hls/"@ + decimal(id as int);
            &&& object_key(folder_key(id, Folder::Rendition(quality)), name) == front + "/"@
                + decimal(lines(quality)) + "p/"@ + name
            &&& object_key(folder_key(id, Folder::Thumbs), name) == front + "/thumbs/"@ + name
            &&& master_key(id) == front + "/master.txt"@
            &&& master_address(public, id) == public + "/"@ + front + "/master.txt"@
        }),
{
    law_renditions_go_by_their_lines(quality);
    reveal_strlit("/");
    reveal_strlit("p");
    reveal_strlit("p/");
    reveal_strlit("thumbs");
    reveal_strlit("/thumbs/");
    reveal_strlit("master.txt");
    reveal_strlit("/master.txt");
    let front = "hls/"@ + decimal(id as int);
    assert(object_key(folder_key(id, Folder::Rendition(quality)), name) =~= front + "/"@ + decimal(
        lines(quality),
    ) + "p/"@ + name);
    assert(object_key(folder_key(id, Folder::Thumbs), name) =~= front + "/thumbs/"@ + name);
    assert(master_key(id) =~= front + "/master.txt"@);
    assert(master_address(public, id) =~= public + "/"@ + front + "/master.txt"@);
}

/// The master playlist is a head and, for each rendition in turn, a line that ends in its lines
/// and a line with its address.
pub proof fn law_master_goes_on_by_rendition(qualities: Seq<Quality>, quality: Quality)
    ensures
        ({
            let before = master_playlist(qualities);
            let text = master_playlist(qualities.push(quality));
            let name = decimal(lines(quality)) + "p"@;
            let ending = "x"@ + decimal(lines(quality)) + "\n"@ + name + "/"@ + name + ".txt\n"@;
            &&& starts_with(text, before + "#EXT-X-STREAM-INF:BANDWIDTH="@)
            &&& text.skip(text.len() - ending.len()) == ending
        }),
        master_playlist(Seq::empty()) == "#EXTM3U\n#EXT-X-VERSION:3\n"@,
{
    law_renditions_go_by_their_lines(quality);
    reveal_strlit("p");
    reveal_strlit("x");
    reveal_strlit("\n");
    reveal_strlit("/");
    reveal_strlit(".txt\n");
    reveal_strlit("1080p");
    reveal_strlit("720p");
    reveal_strlit("480p");
    reveal_strlit("#EXT-X-STREAM-INF:BANDWIDTH=");
    reveal_strlit("#EXT-X-STREAM-INF:BANDWIDTH=5000000,RESOLUTION=1920x1080\n");
    reveal_strlit("#EXT-X-STREAM-INF:BANDWIDTH=2500000,RESOLUTION=1280x720\n");
    reveal_strlit("#EXT-X-STREAM-INF:BANDWIDTH=800000,RESOLUTION=854x480\n");
    reveal_strlit("1080p/1080p.txt");
    reveal_strlit("720p/720p.txt");
    reveal_strlit("480p/480p.txt");
    let before = master_playlist(qualities);
    let text = master_playlist(qualities.push(quality));
    let name = decimal(lines(quality)) + "p"@;
    let number = decimal(lines(quality));
    let ending = "x"@ + number + "\n"@ + name + "/"@ + name + ".txt\n"@;
    assert(qualities.push(quality).drop_last() =~= qualities);
    assert(name =~= quality_name(quality)@);
    assert(number =~= name.drop_last());
    let front = before + "#EXT-X-STREAM-INF:BANDWIDTH="@;
    assert(text.subrange(0, front.len() as int) =~= front);
    assert(text.skip(text.len() - ending.len()) =~= ending);
}

/// What is put into the store for a file stands under the key of its folder and its name, and an
/// entry that is no file is left out. The server is told the address of what is put there as the
/// master playlist.
pub proof fn law_uploads_go_where_they_belong(
    is_file: bool,
    prefix: &str,
    name: &str,
    upload: Option<Upload>,
    public: &str,
    id: i64,
    master: Upload,
    told: CompletePayload,
)
    requires
        call_ensures(entry_upload, (is_file, prefix, name), upload),
        call_ensures(master_upload, (id,), master),
        call_ensures(completion_payload, (public, id), told),
    ensures
        upload is Some <==> is_file,
        upload matches Some(u) ==> u.key@ == prefix@ + "/"@ + name@ && u.content_type@
            == content_type_for(name@) && u.cache_control is None,
        told.hls_url@ == public@ + "/"@ + master.key@,
        master.key@ == "hls/"@ + decimal(id as int) + "/master.txt"@,
        master.content_type@ == "text/plain"@,
        master.cache_control == Some("max-age=0"),
{
    law_keys_are_spelled(id, Quality::P480, Seq::empty(), public@);
}

/// A playlist is published with every segment under its new name, and no two playlists that differ
/// once they are relinked are published alike.
pub proof fn law_playlists_are_published_in_full(
    a: &str,
    b: &str,
    published: (Option<String>, Option<String>),
)
    requires
        call_ensures(checked_playlist, (a,), published.0),
        call_ensures(checked_playlist, (b,), published.1),
    ensures
        published.0 is Some <==> encode_utf8(relinked(a@)).len() <= isize::MAX / 4 * 3,
        published.0 matches Some(text) ==> text@ == base64_text(
            encode_utf8(replaced(a@, ".ts"@, ".bin"@)),
        ),
        published.0 is Some && published.1 is Some && published.0->0@ == published.1->0@
            ==> relinked(a@) == relinked(b@),
{
    law_playlists_fit_in_memory(a@);
    if published.0 is Some && published.1 is Some && published.0->0@ == published.1->0@ {
        law_encoded_text_injective(relinked(a@), relinked(b@));
    }
}

/// A file is renamed and served by its ending, whatever stands before that.
pub proof fn law_renaming_goes_by_the_ending(
    name: &str,
    front: Seq<char>,
    what: Disguise,
    published: String,
    served: &'static str,
)
    requires
        call_ensures(disguise, (name,), what),
        call_ensures(disguised_name, (name,), published),
        call_ensures(content_type, (name,), served),
        front.len() > 0,
    ensures
        name@ == front + ".ts"@ ==> what == Disguise::Segment && published@ == front + ".bin"@,
        name@ == front + ".m3u8"@ ==> what == Disguise::Playlist && published@ == front + ".txt"@,
        ends_otherwise(name@, ".ts"@) && ends_otherwise(name@, ".m3u8"@) ==> what == Disguise::Keep
            && published@ == name@,
        name@ == front + ".bin"@ ==> served@ == "video/mp2t"@,
        name@ == front + ".txt"@ ==> served@ == "text/plain"@,
        name@ == front + ".jpg"@ ==> served@ == "image/jpeg"@,
        ends_otherwise(name@, ".bin"@) && ends_otherwise(name@, ".txt"@) && ends_otherwise(
            name@,
            ".jpg"@,
        ) ==> served@ == "application/octet-stream"@,
{
    law_files_go_by_their_ending(front);
    law_other_files_stay_as_they_are(name@);
}

/// The master playlist is published as the Base64 form of its text, which lists a rendition exactly
/// if the source is high enough for it; a folder of renditions is published under their lines.
pub proof fn law_master_is_published_in_full(
    height: i32,
    text: String,
    encoded: String,
    id: i64,
    quality: Quality,
    prefix: String,
)
    requires
        call_ensures(master_text, (height,), text),
        call_ensures(encoded_master, (height,), encoded),
        call_ensures(folder_prefix, (id, Folder::Rendition(quality)), prefix),
    ensures
        encoded@ == base64_text(encode_utf8(text@)),
        contains(text@, "\n"@ + variant_uri(Quality::P1080) + "\n"@) <==> height >= 1000,
        contains(text@, "\n"@ + variant_uri(Quality::P720) + "\n"@) <==> height >= 700,
        contains(text@, "\n"@ + variant_uri(Quality::P480) + "\n"@),
        prefix@ == "hls/"@ + decimal(id as int) + "/"@ + decimal(lines(quality)) + "p"@,
{
    law_master_lists_the_ladder(height as int, Quality::P1080);
    law_master_lists_the_ladder(height as int, Quality::P720);
    law_master_lists_the_ladder(height as int, Quality::P480);
    law_ladder_goes_by_height(height as int);
    law_renditions_go_by_their_lines(quality);
    assert(prefix@ =~= "hls/"@ + decimal(id as int) + "/"@ + decimal(lines(quality)) + "p"@);
}

} // verus!
