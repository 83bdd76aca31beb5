use anonhive_worker::media::{renditions_for, Quality, WorkPath};
use anonhive_worker::pipeline::Folder;
use anonhive_worker::publish::{
    checked_playlist, completion_payload, content_type, disguise, disguised_name, encoded_master,
    encoded_playlist, entry_upload, file_upload, folder_prefix, master_text, master_upload, Disguise, PARALLEL_UPLOADS,
};
use base64::Engine;

fn decoded(text: &str) -> String {
    let bytes = base64::engine::general_purpose::STANDARD.decode(text).unwrap();
    String::from_utf8(bytes).unwrap()
}

#[test]
fn sixteen_uploads_at_a_time() {
    assert_eq!(PARALLEL_UPLOADS, 16);
}

#[test]
fn keys_of_a_job() {
    assert_eq!(folder_prefix(9, Folder::Thumbs), "hls/9/thumbs");
    assert_eq!(folder_prefix(-9, Folder::Rendition(Quality::P1080)), "hls/-9/1080p");
    let upload = file_upload("hls/9/480p", "480p_000.bin");
    assert_eq!(upload.key, "hls/9/480p/480p_000.bin");
    assert_eq!(upload.content_type, "video/mp2t");
    assert_eq!(upload.cache_control, None);
    let master = master_upload(9);
    assert_eq!(master.key, "hls/9/master.txt");
    assert_eq!(master.content_type, "text/plain");
    assert_eq!(master.cache_control, Some("max-age=0"));
}

#[test]
fn only_files_are_published() {
    let upload = entry_upload(true, "hls/9/480p", "480p.txt").unwrap();
    assert_eq!(upload.key, "hls/9/480p/480p.txt");
    assert_eq!(upload.content_type, "text/plain");
    assert_eq!(upload.cache_control, None);
    assert!(entry_upload(false, "hls/9/480p", "480p.txt").is_none());
}

#[test]
fn published_folders_have_the_names_of_the_scratch_folders() {
    for folder in [
        Folder::Thumbs,
        Folder::Rendition(Quality::P1080),
        Folder::Rendition(Quality::P720),
        Folder::Rendition(Quality::P480),
    ] {
        let steps = folder.path().steps();
        assert_eq!(folder_prefix(9, folder), format!("hls/9/{}", steps.join("/")));
        if let Folder::Rendition(quality) = folder {
            assert_eq!(WorkPath::RenditionPlaylist(quality).steps()[..1], steps[..]);
            assert_eq!(WorkPath::SegmentPattern(quality).steps()[..1], steps[..]);
        } else {
            assert_eq!(WorkPath::ThumbsPattern.steps()[..1], steps[..]);
        }
    }
    assert_eq!(Folder::Thumbs.path(), WorkPath::ThumbsFolder);
}

#[test]
fn completion_tells_the_address_of_the_master_playlist() {
    let payload = completion_payload("https://cdn.example", 9);
    assert_eq!(payload.hls_url, format!("https://cdn.example/{}", master_upload(9).key));
}

#[test]
fn content_types_by_extension() {
    assert_eq!(content_type("a.bin"), "video/mp2t");
    assert_eq!(content_type("a.b.txt"), "text/plain");
    assert_eq!(content_type("thumbnails_001.jpg"), "image/jpeg");
    assert_eq!(content_type("a.JPG"), "application/octet-stream");
    assert_eq!(content_type("a.ts"), "application/octet-stream");
    assert_eq!(content_type("bin"), "application/octet-stream");
    assert_eq!(content_type(".bin"), "application/octet-stream");
    assert_eq!(content_type("a."), "application/octet-stream");
    assert_eq!(content_type(".."), "application/octet-stream");
    assert_eq!(content_type(""), "application/octet-stream");
}

#[test]
fn disguises_agree_with_std_paths() {
    let names = [
        "a.ts", "a.m3u8", "a.b.ts", ".ts", "ts", "a.ts.m3u8", "a.TS", "a.", "a", "...",
        "1080p_000.ts", "\u{e9}.ts", ".a.ts",
    ];
    for name in names {
        let path = std::path::Path::new(name);
        let ext = path.extension().and_then(|e| e.to_str());
        let (kind, new_name) = match ext {
            Some("ts") => (Disguise::Segment, path.with_extension("bin")),
            Some("m3u8") => (Disguise::Playlist, path.with_extension("txt")),
            _ => (Disguise::Keep, path.to_path_buf()),
        };
        assert_eq!(disguise(name), kind, "{}", name);
        assert_eq!(disguised_name(name), new_name.to_str().unwrap(), "{}", name);
        assert_eq!(disguise(&disguised_name(name)), Disguise::Keep, "{}", name);
    }
    assert_eq!(disguised_name("1080p_000.ts"), "1080p_000.bin");
    assert_eq!(disguised_name("720p.m3u8"), "720p.txt");
    assert_eq!(disguised_name("..ts"), "..bin");
}

#[test]
fn playlists_are_relinked_and_encoded() {
    assert_eq!(encoded_playlist(""), "");
    assert_eq!(encoded_playlist("f"), "Zg==");
    assert_eq!(encoded_playlist("fo"), "Zm8=");
    assert_eq!(encoded_playlist("foo"), "Zm9v");
    assert_eq!(encoded_playlist("foobar"), "Zm9vYmFy");
    assert_eq!(checked_playlist("a.ts"), Some(encoded_playlist("a.ts")));
    assert_eq!(checked_playlist("a.ts"), Some("YS5iaW4=".to_string()));
    assert_eq!(encoded_playlist("\u{3ff}~?>"), "z79+Pz4=");
    let playlist = "#EXTM3U\n#EXTINF:4.0,\n480p_000.ts\n#EXTINF:2.5,\n480p_001.ts\n";
    let published = decoded(&encoded_playlist(playlist));
    assert_eq!(published, "#EXTM3U\n#EXTINF:4.0,\n480p_000.bin\n#EXTINF:2.5,\n480p_001.bin\n");
    for (line, new_line) in playlist.lines().zip(published.lines()) {
        if !line.starts_with('#') {
            assert_eq!(disguised_name(line), new_line);
        }
    }
}

#[test]
fn relinked_playlists_name_no_segments() {
    for text in ["..ts", ".t.ts", ".ts.ts", ".tts.ts", "a.tsb.ts"] {
        let published = decoded(&encoded_playlist(text));
        assert_eq!(published, text.replace(".ts", ".bin"));
        assert!(!published.contains(".ts"));
    }
}

#[test]
fn relinking_is_undone() {
    let playlist = "#EXTM3U\n#EXTINF:4.0,\n480p_000.ts\n.b.ts.bi.tsn\n";
    let published = decoded(&encoded_playlist(playlist));
    assert_eq!(published, "#EXTM3U\n#EXTINF:4.0,\n480p_000.bin\n.b.bin.bi.binn\n");
    assert_eq!(published.replace(".bin", ".ts"), playlist);
}

#[test]
fn master_playlists_list_the_ladder() {
    let head = "#EXTM3U\n#EXT-X-VERSION:3\n";
    let full = "#EXT-X-STREAM-INF:BANDWIDTH=5000000,RESOLUTION=1920x1080\n1080p/1080p.txt\n";
    let half = "#EXT-X-STREAM-INF:BANDWIDTH=2500000,RESOLUTION=1280x720\n720p/720p.txt\n";
    let low = "#EXT-X-STREAM-INF:BANDWIDTH=800000,RESOLUTION=854x480\n480p/480p.txt\n";
    assert_eq!(master_text(1080), format!("{}{}{}{}", head, full, half, low));
    assert_eq!(master_text(720), format!("{}{}{}", head, half, low));
    assert_eq!(master_text(240), format!("{}{}", head, low));
    assert_eq!(decoded(&encoded_master(720)), master_text(720));
    assert!(encoded_master(240).starts_with("I0VYVE0zVQ"));
}

#[test]
fn the_master_playlist_leads_to_what_is_published() {
    let text = master_text(1080);
    for quality in renditions_for(1080) {
        let steps = WorkPath::RenditionPlaylist(quality).steps();
        let prefix = folder_prefix(3, Folder::Rendition(quality));
        let upload = file_upload(&prefix, &disguised_name(steps[1]));
        let uri = upload.key.strip_prefix("hls/3/").unwrap().to_string();
        assert!(text.contains(&format!("\n{}\n", uri)));
    }
}
