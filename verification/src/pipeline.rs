//! The work on one job, as a plan of tasks that are performed in order.

use crate::accel::HardwareAccel;
use crate::api::PendingJob;
use crate::media::{
    first_encoder, ladder, law_renditions_go_by_their_lines, lines, path_steps, preferred_encoder,
    quality_name, renditions_for, Encoder, Quality, WorkPath, FALLBACK_HEIGHT,
};
use crate::number::decimal;
use crate::publish::folder_name;
use vstd::prelude::*;

verus! {

/// A part of the work that is announced to the server.
#[derive(Debug, Clone, Copy, PartialEq, Eq, Structural)]
pub enum Stage {
    Download,
    Analyze,
    Thumbnails,
    Transcode(Quality),
    Finalize,
}

/// A folder whose files are published.
#[derive(Debug, Clone, Copy, PartialEq, Eq, Structural)]
pub enum Folder {
    Thumbs,
    Rendition(Quality),
}

/// One thing to do for a job.
#[derive(Debug, Clone, Copy, PartialEq, Eq, Structural)]
pub enum Task {
    /// Tell the server which part of the work begins.
    Report(Stage),
    /// Fetch the video from the store.
    Download,
    /// Ask `ffprobe` how long the video is.
    ProbeDuration,
    /// Ask `ffprobe` how high the video is.
    ProbeHeight,
    /// Create a folder in the scratch folder.
    MakeFolder(Folder),
    /// Have `ffmpeg` make the thumbnail sheets.
    ExtractThumbnails,
    /// Have `ffmpeg` make a rendition.
    Transcode(Quality, Encoder),
    /// Rename the segments of a rendition and encode its playlist.
    Disguise(Quality),
    /// Put the files of a folder into the store.
    UploadFolder(Folder),
    /// Write the encoded master playlist.
    WriteMaster,
    /// Put the master playlist into the store.
    UploadMaster,
    /// Tell the server that the job is complete.
    Complete,
}

/// How a task went.
#[derive(Debug, PartialEq, Eq)]
pub enum Outcome {
    Done,
    /// The height of the video was read.
    Measured(i32),
    /// The task failed with this error.
    Failed(String),
}

/// What comes next in a job.
#[derive(Debug, Clone, Copy, PartialEq, Eq, Structural)]
pub enum Move {
    Perform(Task),
    Succeed,
    Abort,
}

/// The tasks up to the one that measures the video.
pub open spec fn opening() -> Seq<Task> {
    seq![
        Task::Report(Stage::Download),
        Task::Download,
        Task::Report(Stage::Analyze),
        Task::ProbeDuration,
        Task::ProbeHeight,
    ]
}

/// The tasks that publish the thumbnail sheets.
pub open spec fn thumbnails() -> Seq<Task> {
    seq![
        Task::Report(Stage::Thumbnails),
        Task::MakeFolder(Folder::Thumbs),
        Task::ExtractThumbnails,
        Task::UploadFolder(Folder::Thumbs),
    ]
}

/// The tasks that make and publish one rendition.
pub open spec fn rendition(quality: Quality, encoder: Encoder) -> Seq<Task> {
    seq![
        Task::Report(Stage::Transcode(quality)),
        Task::MakeFolder(Folder::Rendition(quality)),
        Task::Transcode(quality, encoder),
        Task::Disguise(quality),
        Task::UploadFolder(Folder::Rendition(quality)),
    ]
}

/// The tasks that make and publish the renditions, one after the other.
pub open spec fn renditions(qualities: Seq<Quality>, encoder: Encoder) -> Seq<Task>
    decreases qualities.len(),
{
    if qualities.len() == 0 {
        Seq::empty()
    } else {
        renditions(qualities.drop_last(), encoder) + rendition(qualities.last(), encoder)
    }
}

/// The tasks that publish the master playlist and close the job.
pub open spec fn closing() -> Seq<Task> {
    seq![
        Task::Report(Stage::Finalize),
        Task::WriteMaster,
        Task::UploadMaster,
        Task::Complete,
    ]
}

/// The tasks of a job, as far as they are known: what follows the measuring depends on the
/// height that was measured.
pub open spec fn plan(accel: HardwareAccel, height: Option<i32>) -> Seq<Task> {
    match height {
        None => opening(),
        Some(h) => opening() + thumbnails() + renditions(
            ladder(h as int),
            preferred_encoder(accel),
        ) + closing(),
    }
}

/// Where a job stands.
pub struct Progress {
    pub accel: HardwareAccel,
    /// The height of the video, once it is measured.
    pub height: Option<i32>,
    /// How many tasks of the plan are behind.
    pub at: int,
    /// The hardware encoder failed on the task at hand, which now falls to the CPU.
    pub software: bool,
    /// The error of the task that failed for good.
    pub error: Option<String>,
}

/// A job that begins.
pub open spec fn initial(accel: HardwareAccel) -> Progress {
    Progress { accel, height: None, at: 0, software: false, error: None }
}

/// The task runs a hardware encoder.
pub open spec fn uses_hardware(task: Task) -> bool {
    match task {
        Task::Transcode(_, encoder) => encoder != Encoder::Cpu,
        _ => false,
    }
}

/// The task, with the CPU in the place of a hardware encoder.
pub open spec fn on_cpu(task: Task) -> Task {
    match task {
        Task::Transcode(quality, _) => Task::Transcode(quality, Encoder::Cpu),
        _ => task,
    }
}

/// What comes next in a job.
pub open spec fn pending(s: Progress) -> Move {
    let tasks = plan(s.accel, s.height);
    if s.error is Some {
        Move::Abort
    } else if s.at >= tasks.len() {
        Move::Succeed
    } else if s.software {
        Move::Perform(on_cpu(tasks[s.at]))
    } else {
        Move::Perform(tasks[s.at])
    }
}

/// The height that the outcome of a measurement tells.
pub open spec fn measured(outcome: Outcome) -> i32 {
    match outcome {
        Outcome::Measured(height) => height,
        _ => FALLBACK_HEIGHT,
    }
}

/// Where a job stands after the task at hand. A report need not get through. A hardware
/// encoder that fails is followed by the CPU on the same rendition. Any other failure ends
/// the job, with the error of the task that failed.
pub open spec fn after(s: Progress, outcome: Outcome) -> Progress {
    match pending(s) {
        Move::Perform(task) => if outcome is Failed && uses_hardware(task) {
            Progress { software: true, ..s }
        } else if outcome is Failed && !(task is Report) {
            Progress { error: Some(outcome->Failed_0), ..s }
        } else {
            Progress {
                at: s.at + 1,
                software: false,
                height: if task == Task::ProbeHeight {
                    Some(measured(outcome))
                } else {
                    s.height
                },
                ..s
            }
        },
        _ => s,
    }
}

/// A state that a job can be in: the height is known exactly when the measuring is behind,
/// and the CPU stands in only for a hardware encoder.
pub open spec fn valid(s: Progress) -> bool {
    let tasks = plan(s.accel, s.height);
    &&& 0 <= s.at <= tasks.len()
    &&& (s.height is Some <==> s.at >= opening().len())
    &&& (s.software ==> s.at < tasks.len() && uses_hardware(tasks[s.at]))
}

/// The words that announce a part of the work.
pub open spec fn stage_text(stage: Stage) -> Seq<char> {
    match stage {
        Stage::Download => "Downloading raw video from cloud..."@,
        Stage::Analyze => "Analyzing video metadata..."@,
        Stage::Thumbnails => "Extracting scrubbing thumbnails..."@,
        Stage::Transcode(quality) => "Transcoding "@ + quality_name(quality)@ + " stream..."@,
        Stage::Finalize => "Finalizing master HLS playlist..."@,
    }
}

/// The words that announce a part of the work.
pub fn stage_message(stage: Stage) -> (message: String)
    ensures
        message@ == stage_text(stage),
{
    match stage {
        Stage::Download => "Downloading raw video from cloud...".to_string(),
        Stage::Analyze => "Analyzing video metadata...".to_string(),
        Stage::Thumbnails => "Extracting scrubbing thumbnails...".to_string(),
        Stage::Transcode(quality) => crate::api::join("Transcoding ", quality.name(), " stream..."),
        Stage::Finalize => "Finalizing master HLS playlist...".to_string(),
    }
}

/// Appends the tasks that follow the measuring of the video.
fn push_rest(tasks: &mut Vec<Task>, accel: HardwareAccel, height: i32)
    ensures
        final(tasks)@ == old(tasks)@ + thumbnails() + renditions(
            ladder(height as int),
            preferred_encoder(accel),
        ) + closing(),
{
    let ghost before = tasks@;
    tasks.push(Task::Report(Stage::Thumbnails));
    tasks.push(Task::MakeFolder(Folder::Thumbs));
    tasks.push(Task::ExtractThumbnails);
    tasks.push(Task::UploadFolder(Folder::Thumbs));
    let encoder = first_encoder(accel);
    let qualities = renditions_for(height);
    let mut i: usize = 0;
    assert(tasks@ =~= before + thumbnails() + renditions(qualities@.take(0), encoder));
    while i < qualities.len()
        invariant
            i <= qualities@.len(),
            tasks@ == before + thumbnails() + renditions(qualities@.take(i as int), encoder),
        decreases qualities@.len() - i,
    {
        let quality = qualities[i];
        let ghost made = tasks@;
        tasks.push(Task::Report(Stage::Transcode(quality)));
        tasks.push(Task::MakeFolder(Folder::Rendition(quality)));
        tasks.push(Task::Transcode(quality, encoder));
        tasks.push(Task::Disguise(quality));
        tasks.push(Task::UploadFolder(Folder::Rendition(quality)));
        assert(tasks@ =~= made + rendition(quality, encoder));
        assert(qualities@.take(i + 1).drop_last() =~= qualities@.take(i as int));
        i = i + 1;
        assert(tasks@ =~= before + thumbnails() + renditions(qualities@.take(i as int), encoder));
    }
    assert(qualities@.take(i as int) =~= qualities@);
    tasks.push(Task::Report(Stage::Finalize));
    tasks.push(Task::WriteMaster);
    tasks.push(Task::UploadMaster);
    tasks.push(Task::Complete);
    assert(tasks@ =~= before + thumbnails() + renditions(qualities@, encoder) + closing());
}

/// The key under which the store keeps the video of a job, which has to name it.
pub fn raw_key(job: &PendingJob) -> (key: Result<&str, String>)
    ensures
        match key {
            Ok(k) => job.raw_file_key is Some && k@ == job.raw_file_key->0@,
            Err(message) => job.raw_file_key is None && message@ == "Missing raw file key"@,
        },
{
    match &job.raw_file_key {
        Some(key) => Ok(key.as_str()),
        None => Err("Missing raw file key".to_string()),
    }
}

/// The folder in the scratch folder whose files are published.
pub open spec fn folder_path(folder: Folder) -> WorkPath {
    match folder {
        Folder::Thumbs => WorkPath::ThumbsFolder,
        Folder::Rendition(quality) => WorkPath::RenditionFolder(quality),
    }
}

impl Folder {
    /// The folder in the scratch folder. It has the name of the published one, and the files
    /// that `ffmpeg` makes for it are in it.
    pub fn path(self) -> (path: WorkPath)
        ensures
            path == folder_path(self),
            path_steps(path).len() == 1,
            path_steps(path)[0]@ == folder_name(self),
            match self {
                Folder::Thumbs => path_steps(WorkPath::ThumbsPattern).drop_last() == path_steps(path),
                Folder::Rendition(quality) => {
                    &&& path_steps(WorkPath::RenditionPlaylist(quality)).drop_last() == path_steps(
                        path,
                    )
                    &&& path_steps(WorkPath::SegmentPattern(quality)).drop_last() == path_steps(
                        path,
                    )
                },
            },
    {
        match self {
            Folder::Thumbs => {
                assert(path_steps(WorkPath::ThumbsPattern).drop_last() =~= path_steps(
                    WorkPath::ThumbsFolder,
                ));
                WorkPath::ThumbsFolder
            },
            Folder::Rendition(quality) => {
                let path = WorkPath::RenditionFolder(quality);
                assert(path_steps(WorkPath::RenditionPlaylist(quality)).drop_last() =~= path_steps(
                    path,
                ));
                assert(path_steps(WorkPath::SegmentPattern(quality)).drop_last() =~= path_steps(
                    path,
                ));
                path
            },
        }
    }
}

/// The work on one job: its plan and where it stands.
#[derive(Debug)]
pub struct Pipeline {
    accel: HardwareAccel,
    height: Option<i32>,
    tasks: Vec<Task>,
    at: usize,
    software: bool,
    error: Option<String>,
}

impl View for Pipeline {
    type V = Progress;

    closed spec fn view(&self) -> Progress {
        Progress {
            accel: self.accel,
            height: self.height,
            at: self.at as int,
            software: self.software,
            error: self.error,
        }
    }
}

impl Pipeline {
    #[verifier::type_invariant]
    spec fn in_step(self) -> bool {
        &&& self.tasks@ == plan(self.accel, self.height)
        &&& valid(self@)
    }

    /// Begins a job, which has to name the file that it is about.
    pub fn start(job: &PendingJob, accel: HardwareAccel) -> (pipeline: Result<Pipeline, String>)
        ensures
            match pipeline {
                Ok(p) => job.raw_file_key is Some && p@ == initial(accel),
                Err(message) => job.raw_file_key is None && message@ == "Missing raw file key"@,
            },
    {
        match raw_key(job) {
            Ok(_) => {},
            Err(message) => {
                return Err(message);
            },
        }
        let tasks: Vec<Task> = vec![
            Task::Report(Stage::Download),
            Task::Download,
            Task::Report(Stage::Analyze),
            Task::ProbeDuration,
            Task::ProbeHeight,
        ];
        assert(tasks@ =~= opening());
        Ok(Pipeline { accel, height: None, tasks, at: 0, software: false, error: None })
    }

    /// What comes next.
    pub fn next(&self) -> (step: Move)
        ensures
            step == pending(self@),
    {
        proof {
            use_type_invariant(self);
        }
        if self.error.is_some() {
            Move::Abort
        } else if self.at >= self.tasks.len() {
            Move::Succeed
        } else {
            match self.tasks[self.at] {
                Task::Transcode(quality, encoder) => Move::Perform(
                    Task::Transcode(
                        quality,
                        if self.software {
                            Encoder::Cpu
                        } else {
                            encoder
                        },
                    ),
                ),
                task => Move::Perform(task),
            }
        }
    }

    /// Moves on from the task at hand.
    pub fn advance(self, outcome: Outcome) -> (pipeline: Pipeline)
        ensures
            pipeline@ == after(self@, outcome),
    {
        proof {
            use_type_invariant(&self);
            lemma_plan(self.accel, self.height);
        }
        let task = match self.next() {
            Move::Perform(task) => task,
            _ => {
                return self;
            },
        };
        let mut height: i32 = FALLBACK_HEIGHT;
        match outcome {
            Outcome::Done => {},
            Outcome::Measured(told) => {
                height = told;
            },
            Outcome::Failed(error) => {
                match task {
                    Task::Report(_) => {},
                    Task::Transcode(_, encoder) => {
                        if encoder != Encoder::Cpu {
                            return Pipeline { software: true, ..self };
                        }
                        return Pipeline { error: Some(error), ..self };
                    },
                    _ => {
                        return Pipeline { error: Some(error), ..self };
                    },
                }
            },
        }
        let at: usize = self.at + 1;
        if task == Task::ProbeHeight {
            let mut tasks = self.tasks;
            push_rest(&mut tasks, self.accel, height);
            assert(tasks@ =~= plan(self.accel, Some(height)));
            return Pipeline { height: Some(height), tasks, at, software: false, ..self };
        }
        Pipeline { at, software: false, ..self }
    }

    /// The height of the video, once it is measured.
    pub fn height(&self) -> (height: Option<i32>)
        ensures
            height == self@.height,
    {
        self.height
    }

    /// How the job stands: the error of the task that failed for good, if one did.
    pub fn result(self) -> (result: Result<(), String>)
        ensures
            result == match self@.error {
                Some(error) => Err::<(), String>(error),
                None => Ok(()),
            },
    {
        match self.error {
            Some(error) => Err(error),
            None => Ok(()),
        }
    }
}

/// Where the tasks of a plan stand: the measuring of the video at the end of the opening and
/// nowhere else, the making of the renditions at every fifth place after the thumbnails, and
/// the completion of the job at the end and nowhere else.
pub(crate) proof fn lemma_plan(accel: HardwareAccel, height: Option<i32>)
    ensures
        opening().len() == 5,
        forall|i: int|
            0 <= i < plan(accel, height).len() ==> (#[trigger] plan(accel, height)[i]
                == Task::ProbeHeight <==> i == 4),
        height is None ==> plan(accel, height) == opening(),
        height is Some ==> ({
            let tasks = plan(accel, height);
            let n = ladder(height->0 as int).len();
            &&& 1 <= n <= 3
            &&& tasks.len() == 13 + 5 * n
            &&& forall|i: int|
                0 <= i < tasks.len() ==> (#[trigger] tasks[i] is Transcode ==> 11 <= i < 11 + 5 * n
                    && (i - 11) % 5 == 0)
            &&& forall|i: int|
                0 <= i < tasks.len() ==> (#[trigger] tasks[i] == Task::Complete <==> i
                    == tasks.len() - 1)
        }),
{
    if height is Some {
        lemma_renditions(height->0 as int, preferred_encoder(accel));
    }
}

/// The tasks of the renditions of a ladder, written out.
pub(crate) proof fn lemma_renditions(height: int, encoder: Encoder)
    ensures
        renditions(ladder(height), encoder) == if height >= 1000 {
            rendition(Quality::P1080, encoder) + rendition(Quality::P720, encoder) + rendition(
                Quality::P480,
                encoder,
            )
        } else if height >= 700 {
            rendition(Quality::P720, encoder) + rendition(Quality::P480, encoder)
        } else {
            rendition(Quality::P480, encoder)
        },
{
    reveal_with_fuel(renditions, 4);
    let qualities = ladder(height);
    if height >= 1000 {
        assert(qualities.drop_last() =~= seq![Quality::P1080, Quality::P720]);
        assert(qualities.drop_last().drop_last() =~= seq![Quality::P1080]);
        assert(qualities.drop_last().drop_last().drop_last() =~= Seq::<Quality>::empty());
    } else if height >= 700 {
        assert(qualities.drop_last() =~= seq![Quality::P720]);
        assert(qualities.drop_last().drop_last() =~= Seq::<Quality>::empty());
    } else {
        assert(qualities.drop_last() =~= Seq::<Quality>::empty());
    }
    assert(renditions(qualities, encoder) =~= if height >= 1000 {
        rendition(Quality::P1080, encoder) + rendition(Quality::P720, encoder) + rendition(
            Quality::P480,
            encoder,
        )
    } else if height >= 700 {
        rendition(Quality::P720, encoder) + rendition(Quality::P480, encoder)
    } else {
        rendition(Quality::P480, encoder)
    });
}

/// The making of a rendition is announced with its lines.
pub proof fn law_stage_tells_the_lines(quality: Quality)
    ensures
        stage_text(Stage::Transcode(quality)) == "Transcoding "@ + decimal(lines(quality))
            + "p stream..."@,
{
    law_renditions_go_by_their_lines(quality);
    reveal_strlit("p");
    reveal_strlit(" stream...");
    reveal_strlit("p stream...");
    assert(stage_text(Stage::Transcode(quality)) =~= "Transcoding "@ + decimal(lines(quality))
        + "p stream..."@);
}

/// A task that fails ends the job at once, with its error, unless it is a report or the making of
/// a rendition on hardware; a rendition that fails on hardware is made on the CPU next.
pub proof fn law_failures_are_not_passed_over(
    job: Pipeline,
    task: Task,
    error: String,
    failed: Pipeline,
    next: Move,
    result: Result<(), String>,
)
    requires
        call_ensures(Pipeline::next, (&job,), Move::Perform(task)),
        call_ensures(Pipeline::advance, (job, Outcome::Failed(error)), failed),
        call_ensures(Pipeline::next, (&failed,), next),
        call_ensures(Pipeline::result, (failed,), result),
        valid(job@),
    ensures
        match task {
            Task::Report(_) => next != Move::Abort && result is Ok,
            Task::Transcode(quality, encoder) => if encoder == Encoder::Cpu {
                next == Move::Abort && result == Err::<(), String>(error)
            } else {
                next == Move::Perform(Task::Transcode(quality, Encoder::Cpu)) && result is Ok
            },
            _ => next == Move::Abort && result == Err::<(), String>(error),
        },
{
}

/// A job is begun exactly when it names its video, which is the one that is fetched.
pub proof fn law_jobs_name_their_video(
    job: PendingJob,
    accel: HardwareAccel,
    begun: Result<Pipeline, String>,
    key: Result<&str, String>,
)
    requires
        call_ensures(Pipeline::start, (&job, accel), begun),
        call_ensures(raw_key, (&job,), key),
    ensures
        begun is Ok <==> job.raw_file_key is Some,
        key is Ok <==> job.raw_file_key is Some,
        key matches Ok(k) ==> job.raw_file_key matches Some(name) && k@ == name@,
        begun matches Err(message) ==> message@ == "Missing raw file key"@,
        key matches Err(message) ==> message@ == "Missing raw file key"@,
{
}

/// A task that is done is behind: the next one is that of the plan, and the height of the video is
/// the one that was measured, once it was.
pub proof fn law_done_tasks_are_left_behind(
    job: Pipeline,
    task: Task,
    told: i32,
    moved: Pipeline,
    height: Option<i32>,
    message: String,
    quality: Quality,
)
    requires
        call_ensures(Pipeline::next, (&job,), Move::Perform(task)),
        call_ensures(Pipeline::advance, (job, Outcome::Measured(told)), moved),
        call_ensures(Pipeline::height, (&moved,), height),
        call_ensures(stage_message, (Stage::Transcode(quality),), message),
    ensures
        moved@.at == job@.at + 1,
        moved@.error is None,
        moved@.accel == job@.accel,
        height == if task == Task::ProbeHeight {
            Some(told)
        } else {
            job@.height
        },
        message@ == "Transcoding "@ + decimal(lines(quality)) + "p stream..."@,
{
    law_stage_tells_the_lines(quality);
}

} // verus!
