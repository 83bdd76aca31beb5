//! One round of asking the server for a job: find one, claim it, work on it, report a
//! failure.

use crate::api::{join, PendingJob};
use crate::status::{means_conflict, means_success, status_text, HttpStatus};
use vstd::prelude::*;

verus! {

/// The seconds between two rounds.
pub const POLL_SECONDS: u64 = 5;

/// Where a round stands.
#[derive(Debug, Clone, Copy, PartialEq, Eq, Structural)]
pub enum Phase {
    /// The server was asked which jobs wait.
    Asking,
    /// The server has answered, and the list of jobs is read.
    Listing,
    /// The server was asked to give the job to this worker.
    Claiming,
    /// The worker works on the job.
    Working,
    /// The server is told that the job failed.
    Reporting,
    /// The round is over.
    Over,
}

/// What a worker learns in a round.
#[derive(Debug)]
pub enum Event {
    /// The status of the answer to the question which jobs wait.
    Answered(HttpStatus),
    /// The list of the jobs that wait.
    Listed(Vec<PendingJob>),
    /// The status of the answer to the claim.
    Claimed(HttpStatus),
    /// The job is done.
    Done,
    /// The job failed, with the given error.
    Failed(String),
    /// The server was told of the failure, whether or not it took note.
    Reported,
    /// A request got no answer, or its answer could not be read, with the given error. Once the
    /// job is granted, that is no error of the round.
    Broken(String),
}

/// What a worker does next in a round.
#[derive(Debug)]
pub enum Action {
    /// Read the list of jobs.
    ReadList,
    /// Claim the job with this number.
    Claim(i64),
    /// Work on the job.
    Work,
    /// Tell the server this about the job with this number.
    Report(i64, String),
    /// End the round: no job waits.
    Idle,
    /// End the round: another worker has the job.
    Taken,
    /// End the round: the job was worked on.
    Finish,
    /// End the round with this error.
    Fail(String),
    /// Nothing: what was learnt does not fit where the round stands.
    Ignore,
}

/// What a worker does next, with the texts taken as they read.
pub enum ActionView {
    ReadList,
    Claim(i64),
    Work,
    Report(i64, Seq<char>),
    Idle,
    Taken,
    Finish,
    Fail(Seq<char>),
    Ignore,
}

impl View for Action {
    type V = ActionView;

    open spec fn view(&self) -> ActionView {
        match *self {
            Action::ReadList => ActionView::ReadList,
            Action::Claim(id) => ActionView::Claim(id),
            Action::Work => ActionView::Work,
            Action::Report(id, message) => ActionView::Report(id, message@),
            Action::Idle => ActionView::Idle,
            Action::Taken => ActionView::Taken,
            Action::Finish => ActionView::Finish,
            Action::Fail(message) => ActionView::Fail(message@),
            Action::Ignore => ActionView::Ignore,
        }
    }
}

/// One round of asking for a job.
#[derive(Debug)]
pub struct Round {
    phase: Phase,
    job: Option<PendingJob>,
}

/// Where a round stands, and the job that it is about, once there is one.
pub struct RoundView {
    pub phase: Phase,
    pub job: Option<PendingJob>,
}

impl View for Round {
    type V = RoundView;

    closed spec fn view(&self) -> RoundView {
        RoundView { phase: self.phase, job: self.job }
    }
}

/// A round that begins.
pub open spec fn first_round() -> RoundView {
    RoundView { phase: Phase::Asking, job: None }
}

/// The number of the job at hand.
pub open spec fn job_id(r: RoundView) -> i64 {
    r.job->0.id
}

/// Where a round stands after an event.
pub open spec fn round_after(r: RoundView, event: Event) -> RoundView {
    let over = RoundView { phase: Phase::Over, ..r };
    match (r.phase, event) {
        (Phase::Over, _) => r,
        (Phase::Asking, Event::Broken(_)) => over,
        (Phase::Listing, Event::Broken(_)) => over,
        (Phase::Claiming, Event::Broken(_)) => over,
        (Phase::Asking, Event::Answered(status)) => if means_success(status@) {
            RoundView { phase: Phase::Listing, ..r }
        } else {
            over
        },
        (Phase::Listing, Event::Listed(jobs)) => if jobs@.len() == 0 {
            over
        } else {
            RoundView { phase: Phase::Claiming, job: Some(jobs@[0]) }
        },
        (Phase::Claiming, Event::Claimed(status)) => if means_success(status@) {
            RoundView { phase: Phase::Working, ..r }
        } else {
            over
        },
        (Phase::Working, Event::Done) => over,
        (Phase::Working, Event::Failed(_)) => RoundView { phase: Phase::Reporting, ..r },
        (Phase::Reporting, Event::Reported) => over,
        (Phase::Reporting, Event::Broken(_)) => over,
        _ => r,
    }
}

/// What a worker does after an event. The first job that waits is the one to claim. That
/// another worker has it is no error, and neither is a job that fails: that is reported. A
/// report that cannot be sent is passed over.
pub open spec fn round_action(r: RoundView, event: Event) -> ActionView {
    match (r.phase, event) {
        (Phase::Over, _) => ActionView::Ignore,
        (Phase::Asking, Event::Broken(error)) => ActionView::Fail(error@),
        (Phase::Listing, Event::Broken(error)) => ActionView::Fail(error@),
        (Phase::Claiming, Event::Broken(error)) => ActionView::Fail(error@),
        (Phase::Asking, Event::Answered(status)) => if means_success(status@) {
            ActionView::ReadList
        } else {
            ActionView::Fail("Failed to poll pending jobs: status="@ + status_text(status@))
        },
        (Phase::Listing, Event::Listed(jobs)) => if jobs@.len() == 0 {
            ActionView::Idle
        } else {
            ActionView::Claim(jobs@[0].id)
        },
        (Phase::Claiming, Event::Claimed(status)) => if means_conflict(status@) {
            ActionView::Taken
        } else if means_success(status@) {
            ActionView::Work
        } else {
            ActionView::Fail("Failed to claim job: status="@ + status_text(status@))
        },
        (Phase::Working, Event::Done) => ActionView::Finish,
        (Phase::Working, Event::Failed(error)) => ActionView::Report(
            job_id(r),
            "❌ Failed: "@ + error@,
        ),
        (Phase::Reporting, Event::Reported) => ActionView::Finish,
        (Phase::Reporting, Event::Broken(_)) => ActionView::Finish,
        _ => ActionView::Ignore,
    }
}

/// A text and what follows it.
fn joined(a: &str, b: &str) -> (text: String)
    ensures
        text@ == a@ + b@,
{
    proof {
        reveal_strlit("");
    }
    let text = join(a, b, "");
    assert(text@ =~= a@ + b@);
    text
}

impl Round {
    /// From the claim on there is a job.
    #[verifier::type_invariant]
    spec fn has_job(self) -> bool {
        self.phase == Phase::Claiming || self.phase == Phase::Working || self.phase
            == Phase::Reporting ==> self.job is Some
    }

    /// The job that the round is about, once there is one.
    pub fn job(&self) -> (job: Option<&PendingJob>)
        ensures
            match job {
                Some(j) => self@.job == Some(*j),
                None => self@.job is None,
            },
    {
        match &self.job {
            Some(job) => Some(job),
            None => None,
        }
    }

    /// A round that begins: the server is asked which jobs wait.
    pub fn begin() -> (round: Round)
        ensures
            round@ == first_round(),
    {
        Round { phase: Phase::Asking, job: None }
    }

    /// Takes in what is learnt, and tells what to do.
    pub fn step(&mut self, event: Event) -> (action: Action)
        ensures
            action@ == round_action(old(self)@, event),
            final(self)@ == round_after(old(self)@, event),
    {
        proof {
            use_type_invariant(&*self);
        }
        match (self.phase, event) {
            (Phase::Over, _) => Action::Ignore,
            (Phase::Asking | Phase::Listing | Phase::Claiming, Event::Broken(error)) => {
                self.phase = Phase::Over;
                Action::Fail(error)
            },
            (Phase::Asking, Event::Answered(status)) => {
                if status.is_success() {
                    self.phase = Phase::Listing;
                    Action::ReadList
                } else {
                    self.phase = Phase::Over;
                    Action::Fail(
                        joined("Failed to poll pending jobs: status=", status.text().as_str()),
                    )
                }
            },
            (Phase::Listing, Event::Listed(jobs)) => {
                let mut jobs = jobs;
                if jobs.len() == 0 {
                    self.phase = Phase::Over;
                    Action::Idle
                } else {
                    let job = jobs.remove(0);
                    let id: i64 = job.id;
                    self.job = Some(job);
                    self.phase = Phase::Claiming;
                    Action::Claim(id)
                }
            },
            (Phase::Claiming, Event::Claimed(status)) => {
                if status.is_conflict() {
                    self.phase = Phase::Over;
                    Action::Taken
                } else if status.is_success() {
                    self.phase = Phase::Working;
                    Action::Work
                } else {
                    self.phase = Phase::Over;
                    Action::Fail(joined("Failed to claim job: status=", status.text().as_str()))
                }
            },
            (Phase::Working, Event::Done) => {
                self.phase = Phase::Over;
                Action::Finish
            },
            (Phase::Working, Event::Failed(error)) => {
                self.phase = Phase::Reporting;
                let id: i64 = match &self.job {
                    Some(job) => job.id,
                    None => 0,
                };
                Action::Report(id, joined("❌ Failed: ", error.as_str()))
            },
            (Phase::Reporting, Event::Reported | Event::Broken(_)) => {
                self.phase = Phase::Over;
                Action::Finish
            },
            _ => Action::Ignore,
        }
    }
}

/// Whether the server took note that a job is complete, or the error if it did not.
pub fn completion_verdict(status: &HttpStatus) -> (verdict: Result<(), String>)
    ensures
        match verdict {
            Ok(_) => means_success(status@),
            Err(message) => !means_success(status@) && message@
                == "Failed to complete job: status="@ + status_text(status@),
        },
{
    if status.is_success() {
        Ok(())
    } else {
        Err(joined("Failed to complete job: status=", status.text().as_str()))
    }
}

/// Where a round stands after a row of events.
pub open spec fn round_run(events: Seq<Event>) -> RoundView
    decreases events.len(),
{
    if events.len() == 0 {
        first_round()
    } else {
        round_after(round_run(events.drop_last()), events.last())
    }
}

/// The `k`-th event is a list whose first job is the given one.
pub open spec fn lists_first(events: Seq<Event>, k: int, job: Option<PendingJob>) -> bool {
    0 <= k < events.len() && match events[k] {
        Event::Listed(jobs) => jobs@.len() > 0 && job == Some(jobs@[0]),
        _ => false,
    }
}

/// The `k`-th event is the consent of the server to the claim of the given job.
pub open spec fn grants(events: Seq<Event>, k: int, job: Option<PendingJob>) -> bool {
    0 <= k < events.len() && match events[k] {
        Event::Claimed(status) => {
            &&& means_success(status@)
            &&& round_run(events.take(k)).phase == Phase::Claiming
            &&& round_run(events.take(k)).job == job
        },
        _ => false,
    }
}

/// The job of a round is the first of those that the server listed.
pub proof fn law_first_job_is_taken(events: Seq<Event>)
    requires
        round_run(events).job is Some,
    ensures
        exists|k: int| lists_first(events, k, round_run(events).job),
    decreases events.len(),
{
    let before = events.drop_last();
    if round_run(before).job == round_run(events).job {
        law_first_job_is_taken(before);
        let k = choose|k: int| lists_first(before, k, round_run(before).job);
        assert(lists_first(events, k, round_run(events).job));
    } else {
        assert(lists_first(events, events.len() - 1, round_run(events).job));
    }
}

/// A worker works on a job only after the server has granted its claim to it.
pub proof fn law_work_is_granted(events: Seq<Event>)
    requires
        round_run(events).phase == Phase::Working,
    ensures
        exists|k: int| grants(events, k, round_run(events).job),
    decreases events.len(),
{
    let before = events.drop_last();
    if round_run(before).phase == Phase::Working {
        law_work_is_granted(before);
        let k = choose|k: int| grants(before, k, round_run(before).job);
        assert(before.take(k) =~= events.take(k));
        assert(grants(events, k, round_run(events).job));
    } else {
        assert(events.take(events.len() - 1) =~= before);
        assert(grants(events, events.len() - 1, round_run(events).job));
    }
}

/// A job that fails is reported with its error, after which the round ends without one,
/// whether or not the report could be sent.
pub proof fn law_failures_are_reported(r: RoundView, error: String, trouble: String)
    requires
        r.phase == Phase::Working,
    ensures
        round_action(r, Event::Failed(error)) == ActionView::Report(
            job_id(r),
            "❌ Failed: "@ + error@,
        ),
        ({
            let told = round_after(r, Event::Failed(error));
            &&& round_action(told, Event::Reported) == ActionView::Finish
            &&& round_action(told, Event::Broken(trouble)) == ActionView::Finish
            &&& round_after(told, Event::Reported).phase == Phase::Over
            &&& round_after(told, Event::Broken(trouble)).phase == Phase::Over
        }),
{
}

/// Until the claim is granted, a request that gets no answer ends the round with its error.
pub proof fn law_broken_requests_end_the_round(r: RoundView, error: String)
    requires
        r.phase == Phase::Asking || r.phase == Phase::Listing || r.phase == Phase::Claiming,
    ensures
        round_action(r, Event::Broken(error)) == ActionView::Fail(error@),
        round_after(r, Event::Broken(error)).phase == Phase::Over,
{
}

/// From the granted claim on, nothing ends the round with an error.
pub proof fn law_granted_rounds_end_well(r: RoundView, event: Event)
    requires
        r.phase == Phase::Working || r.phase == Phase::Reporting,
    ensures
        !(round_action(r, event) is Fail),
        round_after(r, event).phase == Phase::Working || round_after(r, event).phase
            == Phase::Reporting || round_after(r, event).phase == Phase::Over,
        round_after(r, event).job == r.job,
{
}

/// A round that is over stays over.
pub proof fn law_over_is_final(r: RoundView, event: Event)
    requires
        r.phase == Phase::Over,
    ensures
        round_after(r, event) == r,
        round_action(r, event) == ActionView::Ignore,
{
}

/// Of the jobs that wait, the first is claimed, be it the only one or not; a round finds nothing
/// to do only when no job waits.
pub proof fn law_a_waiting_job_is_claimed(r: RoundView, jobs: Vec<PendingJob>)
    requires
        r.phase == Phase::Listing,
    ensures
        jobs@.len() > 0 ==> {
            &&& round_action(r, Event::Listed(jobs)) == ActionView::Claim(jobs@[0].id)
            &&& round_after(r, Event::Listed(jobs)).phase == Phase::Claiming
            &&& round_after(r, Event::Listed(jobs)).job == Some(jobs@[0])
        },
        round_action(r, Event::Listed(jobs)) == ActionView::Idle <==> jobs@.len() == 0,
        jobs@.len() == 0 ==> round_after(r, Event::Listed(jobs)).phase == Phase::Over,
{
}

/// The list of jobs is read exactly when the server answers with a code that begins with 2; any
/// other answer ends the round with an error that tells it.
pub proof fn law_answers_go_by_their_code(r: RoundView, status: HttpStatus)
    requires
        r.phase == Phase::Asking,
    ensures
        ({
            let action = round_action(r, Event::Answered(status));
            let next = round_after(r, Event::Answered(status));
            if status@ / 100 == 2 {
                action == ActionView::ReadList && next.phase == Phase::Listing
            } else {
                &&& action matches ActionView::Fail(message)
                &&& message == "Failed to poll pending jobs: status="@ + status_text(status@)
                &&& next.phase == Phase::Over
            }
        }),
{
}

/// A claim is granted by a code that begins with 2, and denied without an error by 409; any other
/// answer ends the round with an error that tells it. The job at hand stays the same.
pub proof fn law_claims_go_by_their_code(r: RoundView, status: HttpStatus)
    requires
        r.phase == Phase::Claiming,
    ensures
        ({
            let action = round_action(r, Event::Claimed(status));
            let next = round_after(r, Event::Claimed(status));
            &&& next.job == r.job
            &&& if status@ / 100 == 2 {
                action == ActionView::Work && next.phase == Phase::Working
            } else if status@ == 409 {
                action == ActionView::Taken && next.phase == Phase::Over
            } else {
                &&& action matches ActionView::Fail(message)
                &&& message == "Failed to claim job: status="@ + status_text(status@)
                &&& next.phase == Phase::Over
            }
        }),
{
}

/// Work that is done ends the round; work that failed is told to the server with the number of the
/// job and the error, before the round ends.
pub proof fn law_work_ends_the_round(r: RoundView, job: PendingJob, error: String)
    requires
        r.phase == Phase::Working,
        r.job == Some(job),
    ensures
        round_action(r, Event::Done) == ActionView::Finish,
        round_after(r, Event::Done).phase == Phase::Over,
        round_action(r, Event::Failed(error)) == ActionView::Report(
            job.id,
            "❌ Failed: "@ + error@,
        ),
        round_after(r, Event::Failed(error)).phase == Phase::Reporting,
        round_after(r, Event::Failed(error)).job == Some(job),
{
}

/// What is ignored changes nothing, and what changes the round is not ignored.
pub proof fn law_ignored_events_change_nothing(r: RoundView, event: Event)
    ensures
        round_action(r, event) == ActionView::Ignore <==> round_after(r, event) == r,
{
}

/// A round begins with the question which jobs wait, and without a job.
pub proof fn law_rounds_begin_by_asking()
    ensures
        round_run(Seq::empty()).phase == Phase::Asking,
        round_run(Seq::empty()).job is None,
{
}

/// A completion is taken note of exactly when the code of the reply begins with 2, and the error
/// else tells the status.
pub proof fn law_completions_go_by_their_code(status: HttpStatus, verdict: Result<(), String>)
    requires
        call_ensures(completion_verdict, (&status,), verdict),
    ensures
        verdict is Ok <==> status@ / 100 == 2,
        verdict matches Err(message) ==> message@ == "Failed to complete job: status="@
            + status_text(status@),
{
}

/// A round that gets the list claims the first job of it, and ends idle only if there is none.
pub proof fn law_rounds_claim_what_waits(round: &mut Round, jobs: Vec<PendingJob>, action: Action)
    requires
        call_ensures(Round::step, (round, Event::Listed(jobs)), action),
        old(round)@.phase == Phase::Listing,
    ensures
        action@ == ActionView::Idle <==> jobs@.len() == 0,
        jobs@.len() > 0 ==> {
            &&& action@ == ActionView::Claim(jobs@[0].id)
            &&& final(round)@.phase == Phase::Claiming
            &&& final(round)@.job == Some(jobs@[0])
        },
{
}

/// A round works on the job that it claimed exactly if the code of the answer begins with 2.
pub proof fn law_rounds_work_on_what_is_granted(
    round: &mut Round,
    status: HttpStatus,
    action: Action,
)
    requires
        call_ensures(Round::step, (round, Event::Claimed(status)), action),
        old(round)@.phase == Phase::Claiming,
    ensures
        action@ == ActionView::Work <==> status@ / 100 == 2,
        action@ == ActionView::Taken <==> status@ == 409,
        action@ is Fail <==> status@ / 100 != 2 && status@ != 409,
        final(round)@.phase == Phase::Working <==> status@ / 100 == 2,
        final(round)@.job == old(round)@.job,
{
}

/// A round whose work failed tells the server the error of that job.
pub proof fn law_rounds_tell_what_failed(
    round: &mut Round,
    job: PendingJob,
    error: String,
    action: Action,
)
    requires
        call_ensures(Round::step, (round, Event::Failed(error)), action),
        old(round)@.phase == Phase::Working,
        old(round)@.job == Some(job),
    ensures
        action@ == ActionView::Report(job.id, "❌ Failed: "@ + error@),
        final(round)@.phase == Phase::Reporting,
        final(round)@.job == Some(job),
{
}

} // verus!
