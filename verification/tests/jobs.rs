use anonhive_worker::accel::HardwareAccel;
use anonhive_worker::api::PendingJob;
use anonhive_worker::media::{
    duration_probe, first_encoder, height_from, height_probe, probed_height, probed_value,
    renditions_for, thumbnail_command, transcode_command, transcode_description, Arg, Encoder,
    Quality, WorkPath, FALLBACK_HEIGHT, THUMBNAIL_LABEL,
};
use anonhive_worker::pipeline::{
    raw_key, stage_message, Folder, Move, Outcome, Pipeline, Stage, Task,
};
use anonhive_worker::scratch::{is_leftover, scratch_folder_name, ScratchStep};
use anonhive_worker::transcode::{
    exit_verdict, time_in_chunk, time_in_line, Sight, TimeFields, Watch, Watcher,
};

fn job() -> PendingJob {
    PendingJob {
        id: 5,
        raw_file_key: Some("raw/a.mp4".to_string()),
        delete_raw_after: true,
        title: Some("A".to_string()),
    }
}

fn failed(error: &str) -> Outcome {
    Outcome::Failed(error.to_string())
}

fn begin(accel: HardwareAccel) -> Pipeline {
    Pipeline::start(&job(), accel).unwrap()
}

fn perform(pipeline: Pipeline, task: Task, outcome: Outcome) -> Pipeline {
    assert_eq!(pipeline.next(), Move::Perform(task));
    pipeline.advance(outcome)
}

fn after_thumbnails(accel: HardwareAccel, height: Outcome) -> Pipeline {
    let mut p = begin(accel);
    assert_eq!(p.height(), None);
    p = perform(p, Task::Report(Stage::Download), Outcome::Done);
    p = perform(p, Task::Download, Outcome::Done);
    p = perform(p, Task::Report(Stage::Analyze), Outcome::Done);
    p = perform(p, Task::ProbeDuration, Outcome::Done);
    p = perform(p, Task::ProbeHeight, height);
    p = perform(p, Task::Report(Stage::Thumbnails), Outcome::Done);
    p = perform(p, Task::MakeFolder(Folder::Thumbs), Outcome::Done);
    p = perform(p, Task::ExtractThumbnails, Outcome::Done);
    perform(p, Task::UploadFolder(Folder::Thumbs), Outcome::Done)
}

fn rendition(mut p: Pipeline, quality: Quality, encoder: Encoder) -> Pipeline {
    p = perform(p, Task::Report(Stage::Transcode(quality)), Outcome::Done);
    p = perform(p, Task::MakeFolder(Folder::Rendition(quality)), Outcome::Done);
    p = perform(p, Task::Transcode(quality, encoder), Outcome::Done);
    p = perform(p, Task::Disguise(quality), Outcome::Done);
    perform(p, Task::UploadFolder(Folder::Rendition(quality)), Outcome::Done)
}

fn close(mut p: Pipeline) -> Pipeline {
    p = perform(p, Task::Report(Stage::Finalize), Outcome::Done);
    p = perform(p, Task::WriteMaster, Outcome::Done);
    p = perform(p, Task::UploadMaster, Outcome::Done);
    perform(p, Task::Complete, Outcome::Done)
}

#[test]
fn a_job_without_a_file_does_not_start() {
    let job = PendingJob { raw_file_key: None, ..job() };
    let error = Pipeline::start(&job, HardwareAccel::Absent).unwrap_err();
    assert_eq!(error, "Missing raw file key");
    assert_eq!(raw_key(&job), Err("Missing raw file key".to_string()));
}

#[test]
fn a_job_names_the_video_to_fetch() {
    assert_eq!(raw_key(&job()), Ok("raw/a.mp4"));
    let job = PendingJob { raw_file_key: Some(String::new()), ..job() };
    assert_eq!(raw_key(&job), Ok(""));
    assert!(Pipeline::start(&job, HardwareAccel::Absent).is_ok());
}

#[test]
fn a_large_video_gets_three_renditions() {
    let mut p = after_thumbnails(HardwareAccel::Nvenc, Outcome::Measured(1000));
    assert_eq!(p.height(), Some(1000));
    p = rendition(p, Quality::P1080, Encoder::Nvenc);
    p = rendition(p, Quality::P720, Encoder::Nvenc);
    p = rendition(p, Quality::P480, Encoder::Nvenc);
    p = close(p);
    assert_eq!(p.next(), Move::Succeed);
    assert_eq!(p.advance(failed("disk full")).next(), Move::Succeed);
}

#[test]
fn a_smaller_video_gets_fewer_renditions() {
    let mut p = after_thumbnails(HardwareAccel::VideoToolbox, Outcome::Measured(999));
    p = rendition(p, Quality::P720, Encoder::VideoToolbox);
    p = rendition(p, Quality::P480, Encoder::VideoToolbox);
    assert_eq!(close(p).next(), Move::Succeed);
    let mut p = after_thumbnails(HardwareAccel::Absent, Outcome::Measured(699));
    p = rendition(p, Quality::P480, Encoder::Cpu);
    assert_eq!(close(p).next(), Move::Succeed);
}

#[test]
fn a_video_that_is_not_measured_counts_as_1080_lines() {
    let mut p = after_thumbnails(HardwareAccel::Absent, Outcome::Done);
    assert_eq!(p.height(), Some(FALLBACK_HEIGHT));
    p = rendition(p, Quality::P1080, Encoder::Cpu);
    assert_eq!(p.next(), Move::Perform(Task::Report(Stage::Transcode(Quality::P720))));
}

#[test]
fn the_cpu_stands_in_for_failing_hardware() {
    let mut p = after_thumbnails(HardwareAccel::Nvenc, Outcome::Measured(480));
    p = perform(p, Task::Report(Stage::Transcode(Quality::P480)), Outcome::Done);
    p = perform(p, Task::MakeFolder(Folder::Rendition(Quality::P480)), Outcome::Done);
    p = perform(p, Task::Transcode(Quality::P480, Encoder::Nvenc), failed("disk full"));
    p = perform(p, Task::Transcode(Quality::P480, Encoder::Cpu), Outcome::Done);
    p = perform(p, Task::Disguise(Quality::P480), Outcome::Done);
    p = perform(p, Task::UploadFolder(Folder::Rendition(Quality::P480)), Outcome::Done);
    p = close(p);
    assert_eq!(p.next(), Move::Succeed);
    assert_eq!(p.result(), Ok(()));
}

#[test]
fn hardware_is_tried_anew_for_each_rendition() {
    let mut p = after_thumbnails(HardwareAccel::VideoToolbox, Outcome::Measured(720));
    p = perform(p, Task::Report(Stage::Transcode(Quality::P720)), Outcome::Done);
    p = perform(p, Task::MakeFolder(Folder::Rendition(Quality::P720)), Outcome::Done);
    p = perform(p, Task::Transcode(Quality::P720, Encoder::VideoToolbox), failed("disk full"));
    p = perform(p, Task::Transcode(Quality::P720, Encoder::Cpu), Outcome::Done);
    p = perform(p, Task::Disguise(Quality::P720), Outcome::Done);
    p = perform(p, Task::UploadFolder(Folder::Rendition(Quality::P720)), Outcome::Done);
    p = rendition(p, Quality::P480, Encoder::VideoToolbox);
    assert_eq!(close(p).next(), Move::Succeed);
}

#[test]
fn a_failing_cpu_aborts_the_job() {
    let mut p = after_thumbnails(HardwareAccel::Nvenc, Outcome::Measured(480));
    p = perform(p, Task::Report(Stage::Transcode(Quality::P480)), Outcome::Done);
    p = perform(p, Task::MakeFolder(Folder::Rendition(Quality::P480)), Outcome::Done);
    p = perform(p, Task::Transcode(Quality::P480, Encoder::Nvenc), failed("no device"));
    p = perform(p, Task::Transcode(Quality::P480, Encoder::Cpu), failed("disk full"));
    assert_eq!(p.next(), Move::Abort);
    p = p.advance(failed("too late"));
    assert_eq!(p.next(), Move::Abort);
    assert_eq!(p.result(), Err("disk full".to_string()));
}

#[test]
fn any_other_failure_aborts_the_job() {
    let p = perform(begin(HardwareAccel::Absent), Task::Report(Stage::Download), Outcome::Done);
    let p = perform(p, Task::Download, failed("no such key"));
    assert_eq!(p.next(), Move::Abort);
    assert_eq!(p.result(), Err("no such key".to_string()));
    let p = after_thumbnails(HardwareAccel::Absent, Outcome::Measured(1));
    let p = perform(p, Task::Report(Stage::Transcode(Quality::P480)), Outcome::Done);
    let p = perform(p, Task::MakeFolder(Folder::Rendition(Quality::P480)), failed("disk full"));
    assert_eq!(p.next(), Move::Abort);
}

#[test]
fn reports_need_not_arrive() {
    let p = begin(HardwareAccel::Absent);
    let p = perform(p, Task::Report(Stage::Download), failed("disk full"));
    assert_eq!(p.next(), Move::Perform(Task::Download));
}

#[test]
fn the_longest_job_takes_31_turns() {
    let mut p = begin(HardwareAccel::Nvenc);
    let mut turns = 0;
    while let Move::Perform(task) = p.next() {
        turns += 1;
        p = p.advance(match task {
            Task::Transcode(_, Encoder::Nvenc) => failed("disk full"),
            Task::ProbeHeight => Outcome::Measured(2160),
            _ => Outcome::Done,
        });
    }
    assert_eq!(p.next(), Move::Succeed);
    assert_eq!(turns, 31);
}

#[test]
fn stages_are_announced() {
    assert_eq!(stage_message(Stage::Download), "Downloading raw video from cloud...");
    assert_eq!(stage_message(Stage::Analyze), "Analyzing video metadata...");
    assert_eq!(stage_message(Stage::Thumbnails), "Extracting scrubbing thumbnails...");
    assert_eq!(stage_message(Stage::Transcode(Quality::P720)), "Transcoding 720p stream...");
    assert_eq!(stage_message(Stage::Finalize), "Finalizing master HLS playlist...");
}

#[test]
fn ladders_by_height() {
    let (full, half, low) = (Quality::P1080, Quality::P720, Quality::P480);
    assert_eq!(renditions_for(2160), vec![full, half, low]);
    assert_eq!(renditions_for(1000), vec![full, half, low]);
    assert_eq!(renditions_for(999), vec![half, low]);
    assert_eq!(renditions_for(700), vec![half, low]);
    assert_eq!(renditions_for(699), vec![low]);
    assert_eq!(renditions_for(-5), vec![low]);
}

#[test]
fn encoders_by_hardware() {
    assert_eq!(first_encoder(HardwareAccel::Absent), Encoder::Cpu);
    assert_eq!(first_encoder(HardwareAccel::Nvenc), Encoder::Nvenc);
    assert_eq!(first_encoder(HardwareAccel::VideoToolbox), Encoder::VideoToolbox);
}

fn spelled(args: Vec<Arg>) -> String {
    let words: Vec<String> = args
        .into_iter()
        .map(|arg| match arg {
            Arg::Word(word) => word.to_string(),
            Arg::Path(path) => format!("<{}>", path.steps().join("/")),
        })
        .collect();
    words.join(" ")
}

#[test]
fn transcode_commands_are_spelled_out() {
    assert_eq!(
        spelled(transcode_command(Quality::P1080, Encoder::Nvenc)),
        "-y -fflags +genpts -i <raw.mp4> -vf scale=-2:1080,format=yuv420p -c:v h264_nvenc \
         -preset p4 -map 0:v:0 -map 0:a? -c:a aac -ac 2 -b:a 192k -max_muxing_queue_size 1024 \
         -threads 4 -f hls -hls_time 4 -hls_playlist_type vod \
         -hls_segment_filename <1080p/1080p_%03d.ts> <1080p/1080p.m3u8>"
    );
    assert_eq!(
        spelled(transcode_command(Quality::P720, Encoder::VideoToolbox)),
        "-y -fflags +genpts -i <raw.mp4> -vf scale=-2:720,format=yuv420p -c:v h264_videotoolbox \
         -realtime true -map 0:v:0 -map 0:a? -c:a aac -ac 2 -b:a 192k -max_muxing_queue_size 1024 \
         -threads 4 -f hls -hls_time 4 -hls_playlist_type vod \
         -hls_segment_filename <720p/720p_%03d.ts> <720p/720p.m3u8>"
    );
    assert_eq!(
        spelled(transcode_command(Quality::P480, Encoder::Cpu)),
        "-y -fflags +genpts -i <raw.mp4> -vf scale=-2:480,format=yuv420p -c:v libx264 \
         -preset ultrafast -map 0:v:0 -map 0:a? -c:a aac -ac 2 -b:a 192k \
         -max_muxing_queue_size 1024 -threads 4 -f hls -hls_time 4 -hls_playlist_type vod \
         -hls_segment_filename <480p/480p_%03d.ts> <480p/480p.m3u8>"
    );
}

#[test]
fn other_commands_are_spelled_out() {
    assert_eq!(
        spelled(thumbnail_command()),
        "-y -i <raw.mp4> -vf fps=1/10,scale=160:-1,tile=10x10 -q:v 5 <thumbs/thumbnails_%03d.jpg>"
    );
    assert_eq!(
        spelled(duration_probe()),
        "-v error -show_entries format=duration -of default=noprint_wrappers=1:nokey=1 <raw.mp4>"
    );
    assert_eq!(
        spelled(height_probe()),
        "-v error -select_streams v:0 -show_entries stream=height \
         -of default=noprint_wrappers=1:nokey=1 <raw.mp4>"
    );
    assert_eq!(THUMBNAIL_LABEL, "Thumbnail extraction");
}

#[test]
fn paths_in_the_scratch_folder() {
    assert_eq!(WorkPath::ThumbsFolder.steps(), vec!["thumbs"]);
    assert_eq!(WorkPath::RenditionFolder(Quality::P720).steps(), vec!["720p"]);
    assert_eq!(WorkPath::Master.steps(), vec!["master.txt"]);
}

#[test]
fn transcoding_is_described() {
    assert_eq!(transcode_description(Quality::P1080, Encoder::Nvenc), "1080p NVENC transcoding");
    assert_eq!(
        transcode_description(Quality::P720, Encoder::VideoToolbox),
        "720p VideoToolbox transcoding"
    );
    assert_eq!(transcode_description(Quality::P480, Encoder::Cpu), "480p CPU transcoding");
}

#[test]
fn heights_are_read_or_guessed() {
    assert_eq!(height_from("720"), 720);
    assert_eq!(height_from("-3"), -3);
    assert_eq!(height_from("N/A"), 1080);
    assert_eq!(height_from(""), 1080);
    assert_eq!(probed_height(b"480\n"), 480);
    assert_eq!(probed_height(b"\r\n 2160 \n"), 2160);
    assert_eq!(probed_height(b"480\n480\n"), 1080);
    assert_eq!(probed_height(b"48\xff0\n"), 1080);
    assert_eq!(probed_value(b" 12.5\n"), "12.5");
    assert_eq!(probed_value(b"\xff\n"), "\u{fffd}");
}

fn fields(time: Option<TimeFields>) -> Option<(String, String, String)> {
    time.map(|t| (t.hours, t.minutes, t.seconds))
}

fn clock(h: &str, m: &str, s: &str) -> Option<(String, String, String)> {
    Some((h.to_string(), m.to_string(), s.to_string()))
}

#[test]
fn times_are_found_in_lines() {
    let line = "frame=  240 fps= 60 size=N/A time=00:01:10.04 bitrate=N/A speed=2x\r";
    assert_eq!(fields(time_in_line(line)), clock("00", "01", "10.04"));
    assert_eq!(fields(time_in_line("time= 1:2:3")), clock("1", "2", "3"));
    assert_eq!(fields(time_in_line("time=a:b:c d")), clock("a", "b", "c"));
    assert_eq!(fields(time_in_line("time=N/A time=1:2:3")), None);
    assert_eq!(fields(time_in_line("time=1:2")), None);
    assert_eq!(fields(time_in_line("time=1:2:3:4")), None);
    assert_eq!(fields(time_in_line("time=")), None);
    assert_eq!(fields(time_in_line("time 1:2:3")), None);
    assert_eq!(fields(time_in_line("time=::")), clock("", "", ""));
}

#[test]
fn times_are_found_in_chunks() {
    assert_eq!(fields(time_in_chunk(b"x\xfftime=01:02:03.5 y\r")), clock("01", "02", "03.5"));
    assert_eq!(fields(time_in_chunk(b"time=01:02:\xff")), clock("01", "02", "\u{fffd}"));
    assert_eq!(fields(time_in_chunk(b"")), None);
}

#[test]
fn percentages_are_reported_when_they_change() {
    let mut watcher = Watcher::new("label".to_string(), Quality::P720);
    let said = |todo: Watch| match todo {
        Watch::Report(message) => Some(message),
        Watch::Read => None,
        other => panic!("{:?}", other),
    };
    assert_eq!(said(watcher.see(Sight::Printed(None))), None);
    let first = said(watcher.see(Sight::Printed(Some(0))));
    assert_eq!(first, Some("Transcoding 720p (0%)".to_string()));
    assert_eq!(said(watcher.see(Sight::Printed(Some(0)))), None);
    assert_eq!(said(watcher.see(Sight::Printed(None))), None);
    assert_eq!(said(watcher.see(Sight::Printed(Some(0)))), None);
    let last = said(watcher.see(Sight::Printed(Some(100))));
    assert_eq!(last, Some("Transcoding 720p (100%)".to_string()));
    assert!(said(watcher.see(Sight::Printed(Some(99)))).is_some());
    assert_eq!(said(watcher.see(Sight::Printed(Some(99)))), None);
}

#[test]
fn a_first_percentage_of_minus_one_is_not_reported() {
    let mut watcher = Watcher::new("label".to_string(), Quality::P480);
    assert!(matches!(watcher.see(Sight::Printed(Some(-1))), Watch::Read));
}

#[test]
fn a_run_ends_by_its_exit() {
    let mut watcher = Watcher::new("480p CPU transcoding".to_string(), Quality::P480);
    assert!(matches!(watcher.see(Sight::Exit(true, Some(0))), Watch::Ignore));
    assert!(matches!(watcher.see(Sight::Silence), Watch::Await));
    assert!(matches!(watcher.see(Sight::Exit(true, Some(0))), Watch::Finish));
    assert!(matches!(watcher.see(Sight::Silence), Watch::Ignore));
    let mut watcher = Watcher::new("480p CPU transcoding".to_string(), Quality::P480);
    assert!(matches!(watcher.see(Sight::Silence), Watch::Await));
    match watcher.see(Sight::Exit(false, Some(-22))) {
        Watch::Fail(message) => {
            assert_eq!(message, "480p CPU transcoding failed with exit status Some(-22)");
        }
        other => panic!("{:?}", other),
    }
}

#[test]
fn exits_are_judged() {
    assert_eq!(exit_verdict("x", true, None), Ok(()));
    assert_eq!(
        exit_verdict("Thumbnail extraction", false, Some(1)),
        Err("Thumbnail extraction failed with exit status Some(1)".to_string())
    );
    assert_eq!(
        exit_verdict("x", false, None),
        Err("x failed with exit status None".to_string())
    );
}

#[test]
fn scratch_folders_are_known_as_leftovers() {
    assert_eq!(scratch_folder_name(42), "anonhive_worker_transcode_42");
    for id in [0, 42, -1, i64::MIN] {
        assert!(is_leftover(true, &scratch_folder_name(id)));
        assert!(!is_leftover(false, &scratch_folder_name(id)));
    }
    assert!(!is_leftover(true, "anonhive_worker_transcode"));
    assert!(!is_leftover(true, "my_anonhive_worker_transcode_1"));
}

#[test]
fn scratch_folders_are_removed_whatever_happens() {
    let failed = || Err("disk full".to_string());
    assert_eq!(ScratchStep::Look.next(failed()), ScratchStep::Create);
    assert_eq!(ScratchStep::Look.next(Ok(())), ScratchStep::Clear);
    assert_eq!(ScratchStep::Clear.next(failed()), ScratchStep::Create);
    assert_eq!(ScratchStep::Create.next(failed()), ScratchStep::Over(failed()));
    assert_eq!(ScratchStep::Create.next(Ok(())), ScratchStep::Work);
    for result in [Ok(()), failed()] {
        assert_eq!(ScratchStep::Work.next(result.clone()), ScratchStep::Remove(result.clone()));
        let step = ScratchStep::Remove(result.clone()).next(Err("busy".to_string()));
        assert_eq!(step, ScratchStep::Over(result.clone()));
        let step = ScratchStep::Over(result.clone()).next(Ok(()));
        assert_eq!(step, ScratchStep::Over(result));
    }
}
