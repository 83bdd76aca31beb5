//! What holds of every run of a job, however its tasks turn out.

use crate::accel::HardwareAccel;
use crate::media::{ladder, preferred_encoder, Encoder, Quality};
use crate::pipeline::{
    after, initial, lemma_plan, lemma_renditions, measured, on_cpu, pending, plan, uses_hardware,
    valid, Folder, Move, Outcome, Progress, Stage, Task,
};
use vstd::prelude::*;

verus! {

/// Where a job stands after its first tasks turned out as given.
pub open spec fn run(accel: HardwareAccel, outcomes: Seq<Outcome>) -> Progress
    decreases outcomes.len(),
{
    if outcomes.len() == 0 {
        initial(accel)
    } else {
        after(run(accel, outcomes.drop_last()), outcomes.last())
    }
}

/// The tasks that a job has put behind it, in the order in which they were performed.
pub open spec fn completed(accel: HardwareAccel, outcomes: Seq<Outcome>) -> Seq<Task>
    decreases outcomes.len(),
{
    if outcomes.len() == 0 {
        Seq::empty()
    } else {
        let before = run(accel, outcomes.drop_last());
        let done = completed(accel, outcomes.drop_last());
        match pending(before) {
            Move::Perform(task) => if after(before, outcomes.last()).at > before.at {
                done.push(task)
            } else {
                done
            },
            _ => done,
        }
    }
}

/// The job is over.
pub open spec fn finished(s: Progress) -> bool {
    !(pending(s) is Perform)
}

/// A task was performed as planned, or on the CPU in the place of a hardware encoder.
pub open spec fn carries_out(task: Task, planned: Task) -> bool {
    task == planned || (uses_hardware(planned) && task == on_cpu(planned))
}

/// The task makes the given rendition, with whichever encoder.
pub open spec fn makes(task: Task, quality: Quality) -> bool {
    match task {
        Task::Transcode(q, _) => q == quality,
        _ => false,
    }
}

/// From the `i`-th task on, a rendition is made, disguised and put into the store.
pub open spec fn made_and_published(tasks: Seq<Task>, i: int, quality: Quality) -> bool {
    &&& 0 <= i < tasks.len() - 2
    &&& makes(tasks[i], quality)
    &&& tasks[i + 1] == Task::Disguise(quality)
    &&& tasks[i + 2] == Task::UploadFolder(Folder::Rendition(quality))
}

/// Every state of a run is valid.
pub proof fn law_runs_are_valid(accel: HardwareAccel, outcomes: Seq<Outcome>)
    ensures
        valid(run(accel, outcomes)),
        run(accel, outcomes).accel == accel,
    decreases outcomes.len(),
{
    lemma_plan(accel, None);
    if outcomes.len() > 0 {
        let before = run(accel, outcomes.drop_last());
        law_runs_are_valid(accel, outcomes.drop_last());
        lemma_plan(accel, before.height);
        lemma_plan(accel, run(accel, outcomes).height);
    }
}

/// The plan only grows: what was planned before the video was measured stays planned.
proof fn lemma_plan_grows(s: Progress, outcome: Outcome)
    requires
        valid(s),
    ensures
        s.at <= plan(s.accel, after(s, outcome).height).len(),
        forall|i: int|
            0 <= i < plan(s.accel, s.height).len() ==> plan(s.accel, s.height)[i]
                == #[trigger] plan(s.accel, after(s, outcome).height)[i],
{
    lemma_plan(s.accel, s.height);
    lemma_plan(s.accel, after(s, outcome).height);
}

/// The tasks that a job has put behind it are the first tasks of its plan, in order and
/// without a gap, but that the CPU may have made a rendition in the place of the hardware.
pub proof fn law_tasks_follow_the_plan(accel: HardwareAccel, outcomes: Seq<Outcome>)
    ensures
        ({
            let s = run(accel, outcomes);
            let done = completed(accel, outcomes);
            let tasks = plan(accel, s.height);
            &&& done.len() == s.at <= tasks.len()
            &&& forall|i: int| 0 <= i < done.len() ==> #[trigger] carries_out(done[i], tasks[i])
        }),
    decreases outcomes.len(),
{
    law_runs_are_valid(accel, outcomes);
    if outcomes.len() > 0 {
        let before = run(accel, outcomes.drop_last());
        law_runs_are_valid(accel, outcomes.drop_last());
        law_tasks_follow_the_plan(accel, outcomes.drop_last());
        lemma_plan_grows(before, outcomes.last());
        let earlier = completed(accel, outcomes.drop_last());
        let done = completed(accel, outcomes);
        let tasks = plan(accel, run(accel, outcomes).height);
        assert forall|i: int| 0 <= i < done.len() implies #[trigger] carries_out(
            done[i],
            tasks[i],
        ) by {
            if i < earlier.len() {
                assert(carries_out(earlier[i], plan(accel, before.height)[i]));
            }
        }
    }
}

/// A job whose tasks all succeed performs its plan as it stands, task by task, and succeeds
/// when the plan is at an end.
pub proof fn law_undisturbed_run(accel: HardwareAccel, outcomes: Seq<Outcome>)
    requires
        forall|i: int| 0 <= i < outcomes.len() ==> !(#[trigger] outcomes[i] is Failed),
    ensures
        ({
            let s = run(accel, outcomes);
            let tasks = plan(accel, s.height);
            &&& completed(accel, outcomes) == tasks.take(s.at)
            &&& s.at == if outcomes.len() <= tasks.len() {
                outcomes.len()
            } else {
                tasks.len()
            }
            &&& pending(s) == if outcomes.len() < tasks.len() {
                Move::Perform(tasks[s.at])
            } else {
                Move::Succeed
            }
        }),
    decreases outcomes.len(),
{
    law_runs_are_valid(accel, outcomes);
    lemma_plan(accel, run(accel, outcomes).height);
    if outcomes.len() > 0 {
        let before = run(accel, outcomes.drop_last());
        law_runs_are_valid(accel, outcomes.drop_last());
        lemma_plan(accel, before.height);
        lemma_plan_grows(before, outcomes.last());
        assert(forall|i: int|
            0 <= i < outcomes.drop_last().len() ==> outcomes.drop_last()[i] == outcomes[i]);
        law_undisturbed_run(accel, outcomes.drop_last());
    }
    assert(completed(accel, outcomes) =~= plan(accel, run(accel, outcomes).height).take(
        run(accel, outcomes).at,
    ));
}

/// Until the video is measured, every task takes one turn.
proof fn lemma_opening_turns(accel: HardwareAccel, outcomes: Seq<Outcome>)
    requires
        run(accel, outcomes).height is None,
        run(accel, outcomes).error is None,
    ensures
        run(accel, outcomes).at == outcomes.len(),
    decreases outcomes.len(),
{
    if outcomes.len() > 0 {
        law_runs_are_valid(accel, outcomes.drop_last());
        lemma_plan(accel, None);
        lemma_opening_turns(accel, outcomes.drop_last());
    }
}

/// The height that a job goes by is the one that its fifth task, the measuring of the video,
/// told.
pub proof fn law_height_is_the_measured_one(accel: HardwareAccel, outcomes: Seq<Outcome>)
    requires
        run(accel, outcomes).height is Some,
    ensures
        outcomes.len() >= 5,
        run(accel, outcomes).height == Some(measured(outcomes[4])),
    decreases outcomes.len(),
{
    let before = run(accel, outcomes.drop_last());
    law_runs_are_valid(accel, outcomes.drop_last());
    lemma_plan(accel, before.height);
    if before.height is Some {
        law_height_is_the_measured_one(accel, outcomes.drop_last());
    } else {
        lemma_opening_turns(accel, outcomes.drop_last());
    }
}

/// When a hardware encoder fails on a rendition, the CPU makes that rendition next. If the
/// CPU fails too, the job is aborted with the error of the CPU; else the job goes on as if the
/// hardware had made it.
pub proof fn law_cpu_stands_in(
    s: Progress,
    quality: Quality,
    encoder: Encoder,
    trouble: String,
    outcome: Outcome,
)
    requires
        valid(s),
        encoder != Encoder::Cpu,
        pending(s) == Move::Perform(Task::Transcode(quality, encoder)),
    ensures
        ({
            let again = after(s, Outcome::Failed(trouble));
            &&& pending(again) == Move::Perform(Task::Transcode(quality, Encoder::Cpu))
            &&& outcome matches Outcome::Failed(error) ==> pending(after(again, outcome))
                == Move::Abort && after(again, outcome).error == Some(error)
            &&& !(outcome is Failed) ==> after(again, outcome) == after(s, outcome)
        }),
{
}

/// The CPU never stands in unasked: without a hardware encoder, a rendition that fails
/// aborts the job, with its error.
pub proof fn law_cpu_failure_aborts(s: Progress, quality: Quality, error: String)
    requires
        valid(s),
        pending(s) == Move::Perform(Task::Transcode(quality, Encoder::Cpu)),
    ensures
        pending(after(s, Outcome::Failed(error))) == Move::Abort,
        after(s, Outcome::Failed(error)).error == Some(error),
{
}

/// A report that does not get through changes nothing.
pub proof fn law_reports_need_not_arrive(s: Progress, stage: Stage, error: String)
    requires
        pending(s) == Move::Perform(Task::Report(stage)),
    ensures
        after(s, Outcome::Failed(error)) == after(s, Outcome::Done),
{
}

/// A job that is over stays as it is.
pub proof fn law_finished_is_final(s: Progress, outcome: Outcome)
    requires
        finished(s),
    ensures
        after(s, outcome) == s,
{
}

/// The `k`-th turn ended the job: its task failed with the given error, and was neither a report
/// nor one that the CPU takes over.
pub open spec fn ended_by(
    accel: HardwareAccel,
    outcomes: Seq<Outcome>,
    k: int,
    error: String,
) -> bool {
    &&& 0 <= k < outcomes.len()
    &&& outcomes[k] == Outcome::Failed(error)
    &&& match pending(run(accel, outcomes.take(k))) {
        Move::Perform(task) => !(task is Report) && !uses_hardware(task),
        _ => false,
    }
}

/// The error of a job that is aborted is the error of the task that ended it.
pub proof fn law_abort_tells_the_error(accel: HardwareAccel, outcomes: Seq<Outcome>)
    requires
        pending(run(accel, outcomes)) == Move::Abort,
    ensures
        run(accel, outcomes).error is Some,
        exists|k: int| ended_by(accel, outcomes, k, run(accel, outcomes).error->0),
    decreases outcomes.len(),
{
    let error = run(accel, outcomes).error->0;
    let before = outcomes.drop_last();
    if run(accel, before).error is Some {
        law_abort_tells_the_error(accel, before);
        let k = choose|k: int| ended_by(accel, before, k, error);
        assert(before.take(k) =~= outcomes.take(k));
        assert(ended_by(accel, outcomes, k, error));
    } else {
        assert(outcomes.take(outcomes.len() - 1) =~= before);
        assert(ended_by(accel, outcomes, outcomes.len() - 1, error));
    }
}

/// The server is told that a job is complete only when every other task of the plan is
/// behind, and the job succeeds exactly when the server has taken note.
pub proof fn law_complete_comes_last(accel: HardwareAccel, outcomes: Seq<Outcome>)
    ensures
        ({
            let s = run(accel, outcomes);
            let done = completed(accel, outcomes);
            &&& pending(s) == Move::Perform(Task::Complete) ==> s.height is Some && done.len()
                == plan(accel, s.height).len() - 1
            &&& pending(s) == Move::Succeed <==> s.error is None && done.contains(Task::Complete)
        }),
{
    let s = run(accel, outcomes);
    let done = completed(accel, outcomes);
    let tasks = plan(accel, s.height);
    law_runs_are_valid(accel, outcomes);
    law_tasks_follow_the_plan(accel, outcomes);
    lemma_plan(accel, s.height);
    if pending(s) == Move::Succeed {
        assert(carries_out(done[done.len() - 1], tasks[done.len() - 1]));
    }
    if done.contains(Task::Complete) {
        let i = choose|i: int| 0 <= i < done.len() && done[i] == Task::Complete;
        assert(carries_out(done[i], tasks[i]));
    }
}

/// Where a rendition of the ladder stands in the plan.
proof fn lemma_rendition_place(accel: HardwareAccel, height: i32, j: int)
    requires
        0 <= j < ladder(height as int).len(),
    ensures
        ({
            let tasks = plan(accel, Some(height));
            let quality = ladder(height as int)[j];
            &&& 11 + 5 * j + 2 < tasks.len() - 4
            &&& tasks[11 + 5 * j] == Task::Transcode(quality, preferred_encoder(accel))
            &&& tasks[11 + 5 * j + 1] == Task::Disguise(quality)
            &&& tasks[11 + 5 * j + 2] == Task::UploadFolder(Folder::Rendition(quality))
        }),
{
    lemma_renditions(height as int, preferred_encoder(accel));
}

/// Before the master playlist is put into the store, every rendition that it lists has been
/// made, disguised and put there, in this order.
pub proof fn law_master_follows_renditions(
    accel: HardwareAccel,
    outcomes: Seq<Outcome>,
    quality: Quality,
)
    requires
        pending(run(accel, outcomes)) == Move::Perform(Task::UploadMaster),
        ladder(run(accel, outcomes).height->0 as int).contains(quality),
    ensures
        run(accel, outcomes).height is Some,
        exists|i: int| made_and_published(completed(accel, outcomes), i, quality),
{
    let s = run(accel, outcomes);
    law_runs_are_valid(accel, outcomes);
    law_tasks_follow_the_plan(accel, outcomes);
    lemma_master_place(s);
    let height = s.height->0;
    let j = choose|j: int|
        0 <= j < ladder(height as int).len() && ladder(height as int)[j] == quality;
    lemma_rendition_place(accel, height, j);
    lemma_rendition_carried_out(
        completed(accel, outcomes),
        plan(accel, Some(height)),
        11 + 5 * j,
        quality,
        preferred_encoder(accel),
    );
}

/// What was planned for a rendition was carried out.
proof fn lemma_rendition_carried_out(
    done: Seq<Task>,
    tasks: Seq<Task>,
    i: int,
    quality: Quality,
    encoder: Encoder,
)
    requires
        0 <= i < done.len() - 2,
        forall|k: int| 0 <= k < done.len() ==> #[trigger] carries_out(done[k], tasks[k]),
        tasks[i] == Task::Transcode(quality, encoder),
        tasks[i + 1] == Task::Disguise(quality),
        tasks[i + 2] == Task::UploadFolder(Folder::Rendition(quality)),
    ensures
        made_and_published(done, i, quality),
{
    assert(carries_out(done[i], tasks[i]));
    assert(carries_out(done[i + 1], tasks[i + 1]));
    assert(carries_out(done[i + 2], tasks[i + 2]));
}

/// The upload of the master playlist is the last task but one.
proof fn lemma_master_place(s: Progress)
    requires
        valid(s),
        pending(s) == Move::Perform(Task::UploadMaster),
    ensures
        s.height is Some,
        s.at == plan(s.accel, s.height).len() - 2,
{
    if s.height is Some {
        lemma_renditions(s.height->0 as int, preferred_encoder(s.accel));
    }
}

/// How many renditions are behind or at hand when a job is `at` tasks along.
spec fn renditions_met(at: int, software: bool) -> int {
    (if at < 12 {
        0int
    } else if at < 17 {
        1
    } else if at < 22 {
        2
    } else {
        3
    }) + (if software {
        1int
    } else {
        0
    })
}

/// A task takes one turn, and at most one more for each rendition that falls to the CPU.
proof fn lemma_turns(accel: HardwareAccel, outcomes: Seq<Outcome>)
    ensures
        finished(run(accel, outcomes)) || outcomes.len() <= run(accel, outcomes).at
            + renditions_met(run(accel, outcomes).at, run(accel, outcomes).software),
    decreases outcomes.len(),
{
    if outcomes.len() > 0 {
        let before = run(accel, outcomes.drop_last());
        law_runs_are_valid(accel, outcomes.drop_last());
        lemma_turns(accel, outcomes.drop_last());
        lemma_plan(accel, before.height);
    }
}

/// Every job ends: after 31 tasks it has succeeded or is aborted, however they turn out.
pub proof fn law_jobs_end(accel: HardwareAccel, outcomes: Seq<Outcome>)
    requires
        outcomes.len() >= 31,
    ensures
        finished(run(accel, outcomes)),
{
    lemma_turns(accel, outcomes);
    law_runs_are_valid(accel, outcomes);
    lemma_plan(accel, run(accel, outcomes).height);
}

/// A job begins with nothing behind it and nothing known of the video.
pub proof fn law_jobs_begin_at_the_beginning(accel: HardwareAccel)
    ensures
        run(accel, Seq::empty()).accel == accel,
        run(accel, Seq::empty()).height is None,
        run(accel, Seq::empty()).at == 0,
        !run(accel, Seq::empty()).software,
        run(accel, Seq::empty()).error is None,
        pending(run(accel, Seq::empty())) == Move::Perform(Task::Report(Stage::Download)),
{
}

/// The plan of a job, task by task: the video is fetched and measured, the thumbnail sheets are
/// made and published, each rendition of the ladder is made with the hardware that there is,
/// disguised and published, and at last the master playlist is published and the job completed.
pub proof fn law_plan_is_task_by_task(accel: HardwareAccel, height: i32, j: int)
    requires
        0 <= j < ladder(height as int).len(),
    ensures
        ({
            let tasks = plan(accel, Some(height));
            let n = tasks.len();
            let quality = ladder(height as int)[j];
            let block = 9 + 5 * j;
            &&& plan(accel, None) == tasks.take(5)
            &&& n == 13 + 5 * ladder(height as int).len()
            &&& tasks[0] == Task::Report(Stage::Download)
            &&& tasks[1] == Task::Download
            &&& tasks[2] == Task::Report(Stage::Analyze)
            &&& tasks[3] == Task::ProbeDuration
            &&& tasks[4] == Task::ProbeHeight
            &&& tasks[5] == Task::Report(Stage::Thumbnails)
            &&& tasks[6] == Task::MakeFolder(Folder::Thumbs)
            &&& tasks[7] == Task::ExtractThumbnails
            &&& tasks[8] == Task::UploadFolder(Folder::Thumbs)
            &&& tasks[block] == Task::Report(Stage::Transcode(quality))
            &&& tasks[block + 1] == Task::MakeFolder(Folder::Rendition(quality))
            &&& tasks[block + 2] == Task::Transcode(
                quality,
                match accel {
                    HardwareAccel::Absent => Encoder::Cpu,
                    HardwareAccel::Nvenc => Encoder::Nvenc,
                    HardwareAccel::VideoToolbox => Encoder::VideoToolbox,
                },
            )
            &&& tasks[block + 3] == Task::Disguise(quality)
            &&& tasks[block + 4] == Task::UploadFolder(Folder::Rendition(quality))
            &&& tasks[n - 4] == Task::Report(Stage::Finalize)
            &&& tasks[n - 3] == Task::WriteMaster
            &&& tasks[n - 2] == Task::UploadMaster
            &&& tasks[n - 1] == Task::Complete
        }),
{
    lemma_renditions(height as int, preferred_encoder(accel));
    assert(plan(accel, None) =~= plan(accel, Some(height)).take(5));
}

/// What comes next is the task of the plan at which the job stands, on the CPU where that stands
/// in; a job with an error is aborted, and one with its plan behind it has succeeded.
pub proof fn law_next_is_the_task_at_hand(s: Progress)
    requires
        valid(s),
    ensures
        s.error is Some <==> pending(s) == Move::Abort,
        s.error is None && s.at == plan(s.accel, s.height).len() <==> pending(s) == Move::Succeed,
        s.error is None && s.at < plan(s.accel, s.height).len() ==> {
            let planned = plan(s.accel, s.height)[s.at];
            &&& !s.software ==> pending(s) == Move::Perform(planned)
            &&& s.software ==> {
                &&& planned matches Task::Transcode(quality, encoder)
                &&& encoder != Encoder::Cpu
                &&& pending(s) == Move::Perform(Task::Transcode(quality, Encoder::Cpu))
            }
        },
{
}

/// A task that did not fail is behind, and all else stays; only the measuring of the video tells
/// a height, which is the one that was measured, or 1080 if none was.
pub proof fn law_done_is_behind(s: Progress, task: Task, outcome: Outcome)
    requires
        pending(s) == Move::Perform(task),
        !(outcome is Failed),
    ensures
        after(s, outcome).at == s.at + 1,
        after(s, outcome).accel == s.accel,
        after(s, outcome).error is None,
        !after(s, outcome).software,
        task != Task::ProbeHeight ==> after(s, outcome).height == s.height,
        task == Task::ProbeHeight ==> after(s, outcome).height == match outcome {
            Outcome::Measured(height) => Some(height),
            _ => Some(1080i32),
        },
{
}

/// A task that may fail without ending the job: a report, or the making of a rendition on hardware.
pub open spec fn may_fail(task: Task) -> bool {
    match task {
        Task::Report(_) => true,
        Task::Transcode(_, Encoder::Nvenc) => true,
        Task::Transcode(_, Encoder::VideoToolbox) => true,
        _ => false,
    }
}

/// Any other task that fails ends the job, with its error and where it stands.
pub proof fn law_failure_ends_the_job(s: Progress, task: Task, error: String)
    requires
        pending(s) == Move::Perform(task),
        !may_fail(task),
    ensures
        pending(after(s, Outcome::Failed(error))) == Move::Abort,
        after(s, Outcome::Failed(error)).error == Some(error),
        after(s, Outcome::Failed(error)).at == s.at,
{
}

/// The tasks that may fail, one by one: no other task of a job may, whatever it is about.
pub proof fn law_few_tasks_may_fail(quality: Quality, folder: Folder, stage: Stage)
    ensures
        may_fail(Task::Report(stage)),
        may_fail(Task::Transcode(quality, Encoder::Nvenc)),
        may_fail(Task::Transcode(quality, Encoder::VideoToolbox)),
        !may_fail(Task::Transcode(quality, Encoder::Cpu)),
        !may_fail(Task::Download),
        !may_fail(Task::ProbeDuration),
        !may_fail(Task::ProbeHeight),
        !may_fail(Task::MakeFolder(folder)),
        !may_fail(Task::ExtractThumbnails),
        !may_fail(Task::Disguise(quality)),
        !may_fail(Task::UploadFolder(folder)),
        !may_fail(Task::WriteMaster),
        !may_fail(Task::UploadMaster),
        !may_fail(Task::Complete),
{
}

/// A job that has an error keeps it.
proof fn lemma_errors_stay(accel: HardwareAccel, outcomes: Seq<Outcome>, k: int)
    requires
        0 <= k <= outcomes.len(),
        run(accel, outcomes.take(k)).error is Some,
    ensures
        run(accel, outcomes).error == run(accel, outcomes.take(k)).error,
    decreases outcomes.len() - k,
{
    if k < outcomes.len() {
        assert(outcomes.take(k + 1).drop_last() =~= outcomes.take(k));
        lemma_errors_stay(accel, outcomes, k + 1);
    } else {
        assert(outcomes.take(k) =~= outcomes);
    }
}

/// In a run without an error at its end, so in every run that succeeded, no task failed but
/// reports and renditions on hardware.
pub proof fn law_success_excuses_few_failures(
    accel: HardwareAccel,
    outcomes: Seq<Outcome>,
    k: int,
    task: Task,
)
    requires
        run(accel, outcomes).error is None,
        0 <= k < outcomes.len(),
        outcomes[k] is Failed,
        pending(run(accel, outcomes.take(k))) == Move::Perform(task),
    ensures
        may_fail(task),
{
    assert(outcomes.take(k + 1).drop_last() =~= outcomes.take(k));
    if !may_fail(task) {
        law_failure_ends_the_job(run(accel, outcomes.take(k)), task, outcomes[k]->Failed_0);
        lemma_errors_stay(accel, outcomes, k + 1);
    }
}

/// The hardware that fails on a rendition leaves the job where it is, and the CPU stands in for
/// that rendition only.
pub proof fn law_hardware_failure_keeps_the_place(
    s: Progress,
    quality: Quality,
    encoder: Encoder,
    error: String,
    outcome: Outcome,
)
    requires
        valid(s),
        encoder != Encoder::Cpu,
        pending(s) == Move::Perform(Task::Transcode(quality, encoder)),
        !(outcome is Failed),
    ensures
        ({
            let again = after(s, Outcome::Failed(error));
            &&& again.at == s.at
            &&& again.height == s.height
            &&& again.accel == s.accel
            &&& again.error is None
            &&& pending(again) == Move::Perform(Task::Transcode(quality, Encoder::Cpu))
            &&& after(again, outcome).at == s.at + 1
            &&& pending(after(again, outcome)) == Move::Perform(Task::Disguise(quality))
        }),
{
    lemma_plan(s.accel, s.height);
    lemma_renditions(s.height->0 as int, preferred_encoder(s.accel));
}

} // verus!
