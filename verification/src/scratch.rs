//! The scratch folder of a job: its name and its life.

use crate::api::join;
use crate::number::{decimal, decimal_text, law_decimal_injective};
use crate::text::{
    has_prefix, law_what_is_found_stands, law_what_stands_is_found, starts_with,
};
use vstd::prelude::*;

verus! {

/// What the names of all scratch folders begin with.
pub open spec fn scratch_prefix() -> Seq<char> {
    "anonhive_worker_transcode_"@
}

/// The name of the scratch folder of a job.
pub open spec fn scratch_name(id: i64) -> Seq<char> {
    scratch_prefix() + decimal(id as int)
}

/// What is to be done next with the scratch folder of a job.
#[derive(Debug, PartialEq, Eq)]
pub enum ScratchStep {
    /// Look whether there is one from an earlier run.
    Look,
    /// Remove the one from an earlier run.
    Clear,
    /// Create it.
    Create,
    /// Do the work of the job in it.
    Work,
    /// Remove it. The work had this result.
    Remove(Result<(), String>),
    /// Nothing: the job had this result.
    Over(Result<(), String>),
}

/// The step that follows, given how a step went: well, or with an error. Looking goes well when
/// there is a folder. Removing a folder need not succeed.
pub open spec fn step_after(step: ScratchStep, answer: Result<(), String>) -> ScratchStep {
    match step {
        ScratchStep::Look => if answer is Ok {
            ScratchStep::Clear
        } else {
            ScratchStep::Create
        },
        ScratchStep::Clear => ScratchStep::Create,
        ScratchStep::Create => if answer is Ok {
            ScratchStep::Work
        } else {
            ScratchStep::Over(answer)
        },
        ScratchStep::Work => ScratchStep::Remove(answer),
        ScratchStep::Remove(result) => ScratchStep::Over(result),
        ScratchStep::Over(result) => ScratchStep::Over(result),
    }
}

/// The step at which a job is after the given answers.
pub open spec fn scratch_run(answers: Seq<Result<(), String>>) -> ScratchStep
    decreases answers.len(),
{
    if answers.len() == 0 {
        ScratchStep::Look
    } else {
        step_after(scratch_run(answers.drop_last()), answers.last())
    }
}

impl ScratchStep {
    /// The step that follows, given how this one went. Looking goes well when there is a folder.
    pub fn next(self, answer: Result<(), String>) -> (step: ScratchStep)
        ensures
            step == step_after(self, answer),
    {
        match self {
            ScratchStep::Look => match answer {
                Ok(_) => ScratchStep::Clear,
                Err(_) => ScratchStep::Create,
            },
            ScratchStep::Clear => ScratchStep::Create,
            ScratchStep::Create => match answer {
                Ok(_) => ScratchStep::Work,
                Err(error) => ScratchStep::Over(Err(error)),
            },
            ScratchStep::Work => ScratchStep::Remove(answer),
            ScratchStep::Remove(result) => ScratchStep::Over(result),
            ScratchStep::Over(result) => ScratchStep::Over(result),
        }
    }
}

/// The name of the scratch folder of a job.
pub fn scratch_folder_name(id: i64) -> (name: String)
    ensures
        name@ == scratch_name(id),
{
    let name = join("anonhive_worker_transcode_", decimal_text(id).as_str(), "");
    proof {
        reveal_strlit("");
    }
    assert(name@ =~= scratch_name(id));
    name
}

/// Whether an entry of the folder for temporary files was left behind by a worker.
pub fn is_leftover(is_folder: bool, name: &str) -> (leftover: bool)
    ensures
        leftover == (is_folder && starts_with(name@, scratch_prefix())),
{
    is_folder && has_prefix(name, "anonhive_worker_transcode_")
}

/// A scratch folder that is left behind is known as such.
pub proof fn law_scratch_folders_are_leftovers(id: i64)
    ensures
        starts_with(scratch_name(id), scratch_prefix()),
{
    assert(scratch_name(id).subrange(0, scratch_prefix().len() as int) =~= scratch_prefix());
}

/// Two jobs never share a scratch folder.
pub proof fn law_scratch_names_apart(a: i64, b: i64)
    requires
        scratch_name(a) == scratch_name(b),
    ensures
        a == b,
{
    let n = scratch_prefix().len() as int;
    assert(scratch_name(a).skip(n) =~= decimal(a as int));
    assert(scratch_name(b).skip(n) =~= decimal(b as int));
    law_decimal_injective(a as int, b as int);
}

/// Once the work has ended, the folder is removed, and the result is that of the work, with its
/// error, whether or not the folder could be removed.
pub proof fn law_scratch_is_removed(worked: Result<(), String>, removed: Result<(), String>)
    ensures
        step_after(ScratchStep::Work, worked) == ScratchStep::Remove(worked),
        step_after(step_after(ScratchStep::Work, worked), removed) == ScratchStep::Over(worked),
{
}

/// The `k`-th answer settles the result of a job: it is the result of the work, or the error
/// with which the folder could not be created.
pub open spec fn settles(
    answers: Seq<Result<(), String>>,
    k: int,
    result: Result<(), String>,
) -> bool {
    &&& 0 <= k < answers.len()
    &&& answers[k] == result
    &&& {
        ||| scratch_run(answers.take(k)) == ScratchStep::Work
        ||| scratch_run(answers.take(k)) == ScratchStep::Create && result is Err
    }
}

/// The result of a job is that of its work, or the error with which its folder could not be
/// created. So a job succeeds only through work that succeeded.
pub proof fn law_result_is_handed_on(answers: Seq<Result<(), String>>, result: Result<(), String>)
    requires
        scratch_run(answers) == ScratchStep::Over(result) || scratch_run(answers)
            == ScratchStep::Remove(result),
    ensures
        exists|k: int| settles(answers, k, result),
    decreases answers.len(),
{
    let before = answers.drop_last();
    if scratch_run(before) == ScratchStep::Over(result) || scratch_run(before)
        == ScratchStep::Remove(result) {
        law_result_is_handed_on(before, result);
        let k = choose|k: int| settles(before, k, result);
        assert(before.take(k) =~= answers.take(k));
        assert(settles(answers, k, result));
    } else {
        let k = answers.len() - 1;
        assert(answers.take(k) =~= before);
        assert(settles(answers, k, result));
    }
}

/// The scratch folder of a job is named after the job: its number stands behind the common
/// beginning.
pub proof fn law_scratch_folder_is_named_after_the_job(id: i64)
    ensures
        scratch_name(id) == "anonhive_worker_"@ + "transcode_"@ + decimal(id as int),
{
    reveal_strlit("anonhive_worker_");
    reveal_strlit("transcode_");
    reveal_strlit("anonhive_worker_transcode_");
    assert("anonhive_worker_"@ + "transcode_"@ =~= "anonhive_worker_transcode_"@);
}

/// Work begins in a folder that was just created, after an earlier one was removed, however that
/// went; without a folder there is no work, and the error is that of creating it.
pub proof fn law_work_begins_in_a_new_folder(
    cleared: Result<(), String>,
    missing: String,
    error: String,
)
    ensures
        scratch_run(seq![Ok(()), cleared, Ok(())]) == ScratchStep::Work,
        scratch_run(seq![Err(missing), Ok(())]) == ScratchStep::Work,
        scratch_run(seq![Ok(())]) == ScratchStep::Clear,
        scratch_run(seq![Ok(()), cleared]) == ScratchStep::Create,
        scratch_run(seq![Ok(()), cleared, Err(error)]) == ScratchStep::Over(Err(error)),
        scratch_run(seq![Err(missing), Err(error)]) == ScratchStep::Over(Err(error)),
{
    reveal_with_fuel(scratch_run, 4);
    let none = Seq::<Result<(), String>>::empty();
    assert(seq![Ok::<(), String>(())].drop_last() =~= none);
    assert(seq![Err::<(), String>(missing)].drop_last() =~= none);
    assert(seq![Ok(()), cleared].drop_last() =~= seq![Ok::<(), String>(())]);
    assert(seq![Ok(()), cleared, Ok(())].drop_last() =~= seq![Ok(()), cleared]);
    assert(seq![Ok(()), cleared, Err(error)].drop_last() =~= seq![Ok(()), cleared]);
    assert(seq![Err(missing), Ok(())].drop_last() =~= seq![Err::<(), String>(missing)]);
    assert(seq![Err(missing), Err::<(), String>(error)].drop_last() =~= seq![
        Err::<(), String>(missing),
    ]);
}

/// A job that is over stays over.
pub proof fn law_over_stays_over(result: Result<(), String>, answer: Result<(), String>)
    ensures
        step_after(ScratchStep::Over(result), answer) == ScratchStep::Over(result),
{
}

/// A worker removes what workers left behind and nothing else: folders, and only those whose names
/// begin as the names of scratch folders do.
pub proof fn law_only_leftovers_are_removed(
    is_folder: bool,
    name: &str,
    leftover: bool,
    id: i64,
    folder: String,
)
    requires
        call_ensures(is_leftover, (is_folder, name), leftover),
        call_ensures(scratch_folder_name, (id,), folder),
    ensures
        leftover ==> is_folder && exists|rest: Seq<char>|
            name@ == #[trigger] ("anonhive_worker_transcode_"@ + rest),
        is_folder && name@ == folder@ ==> leftover,
        folder@ == "anonhive_worker_transcode_"@ + decimal(id as int),
{
    law_what_is_found_stands(name@, "anonhive_worker_transcode_"@);
    law_what_stands_is_found(
        Seq::empty(),
        "anonhive_worker_transcode_"@,
        decimal(id as int),
    );
}

/// The work is followed by the removal of the folder, and the removal by the end with the result
/// of the work.
pub proof fn law_results_outlive_the_folder(
    worked: Result<(), String>,
    removed: Result<(), String>,
    steps: (ScratchStep, ScratchStep),
)
    requires
        call_ensures(ScratchStep::next, (ScratchStep::Work, worked), steps.0),
        call_ensures(ScratchStep::next, (steps.0, removed), steps.1),
    ensures
        steps.0 is Remove,
        steps.1 == ScratchStep::Over(worked),
{
}

} // verus!
