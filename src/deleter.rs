use vstd::prelude::*;

verus! {

/// Why a deletion failed.
pub enum DeleterError {
    /// The marker file could not be written into the root, or not removed
    /// again: elevated privileges are likely needed.
    WritePermission(String),
    /// The root directory tree could not be removed.
    RemoveDir(String),
    /// Another filesystem access failed.
    Io(String),
}

/// The text that describes a deletion error.
pub open spec fn deleter_error_text(e: DeleterError) -> Seq<char> {
    match e {
        DeleterError::WritePermission(cause) => "No write permission in target directory. Try running with sudo/admin privileges. Original error: "@
            + cause@,
        DeleterError::RemoveDir(cause) => "Failed to remove directory. Original error: "@ + cause@,
        DeleterError::Io(cause) => "I/O error: "@ + cause@,
    }
}

impl DeleterError {
    /// A description of the error for people to read.
    pub fn describe(&self) -> (r: String)
        ensures
            r@ == deleter_error_text(*self),
    {
        let (mut text, cause) = match self {
            DeleterError::WritePermission(cause) => (
                String::from_str(
                    "No write permission in target directory. Try running with sudo/admin privileges. Original error: ",
                ),
                cause,
            ),
            DeleterError::RemoveDir(cause) => (
                String::from_str("Failed to remove directory. Original error: "),
                cause,
            ),
            DeleterError::Io(cause) => (String::from_str("I/O error: "), cause),
        };
        text.append(cause.as_str());
        text
    }
}

/// The step a deletion is at. Each step other than `Finished` is an action for
/// the caller to perform, whose outcome is handed back to `next_step`.
pub enum DeletionStep {
    /// Write a small marker file inside the root.
    WriteMarker,
    /// Remove the marker file again.
    RemoveMarker,
    /// Remove the root's whole directory tree.
    RemoveRoot,
    /// Remove the version manager's directory, if there is one.
    CleanupManager,
    /// The deletion is over, with this result.
    Finished(Result<(), DeleterError>),
}

/// How the action of a step went.
pub enum StepOutcome {
    Done,
    Failed(String),
}

/// The step that follows `step` once its action had `outcome`. The steps run
/// in a fixed order and the first failure ends the deletion, except that the
/// version manager's cleanup is best effort: its failure is not reported.
pub open spec fn step_after(step: DeletionStep, outcome: StepOutcome) -> DeletionStep {
    match step {
        DeletionStep::WriteMarker => match outcome {
            StepOutcome::Done => DeletionStep::RemoveMarker,
            StepOutcome::Failed(e) => DeletionStep::Finished(Err(DeleterError::WritePermission(e))),
        },
        DeletionStep::RemoveMarker => match outcome {
            StepOutcome::Done => DeletionStep::RemoveRoot,
            StepOutcome::Failed(e) => DeletionStep::Finished(Err(DeleterError::WritePermission(e))),
        },
        DeletionStep::RemoveRoot => match outcome {
            StepOutcome::Done => DeletionStep::CleanupManager,
            StepOutcome::Failed(e) => DeletionStep::Finished(Err(DeleterError::RemoveDir(e))),
        },
        DeletionStep::CleanupManager => DeletionStep::Finished(Ok(())),
        DeletionStep::Finished(r) => DeletionStep::Finished(r),
    }
}

/// The step reached from `WriteMarker` after the given outcomes, one per step.
pub open spec fn run_deletion(outcomes: Seq<StepOutcome>) -> DeletionStep
    decreases outcomes.len(),
{
    if outcomes.len() == 0 {
        DeletionStep::WriteMarker
    } else {
        step_after(run_deletion(outcomes.drop_last()), outcomes.last())
    }
}

/// The first step of a deletion.
pub fn first_step() -> (r: DeletionStep)
    ensures
        r == run_deletion(seq![]),
{
    DeletionStep::WriteMarker
}

/// The step that follows `step` once its action had `outcome`.
pub fn next_step(step: DeletionStep, outcome: StepOutcome) -> (r: DeletionStep)
    ensures
        r == step_after(step, outcome),
{
    match step {
        DeletionStep::WriteMarker => match outcome {
            StepOutcome::Done => DeletionStep::RemoveMarker,
            StepOutcome::Failed(e) => DeletionStep::Finished(Err(DeleterError::WritePermission(e))),
        },
        DeletionStep::RemoveMarker => match outcome {
            StepOutcome::Done => DeletionStep::RemoveRoot,
            StepOutcome::Failed(e) => DeletionStep::Finished(Err(DeleterError::WritePermission(e))),
        },
        DeletionStep::RemoveRoot => match outcome {
            StepOutcome::Done => DeletionStep::CleanupManager,
            StepOutcome::Failed(e) => DeletionStep::Finished(Err(DeleterError::RemoveDir(e))),
        },
        DeletionStep::CleanupManager => DeletionStep::Finished(Ok(())),
        DeletionStep::Finished(r) => DeletionStep::Finished(r),
    }
}

/// Running one more outcome extends the run by one step.
proof fn lemma_run_take_succ(outcomes: Seq<StepOutcome>, k: int)
    requires
        0 <= k < outcomes.len(),
    ensures
        run_deletion(outcomes.take(k + 1)) == step_after(run_deletion(outcomes.take(k)), outcomes[k]),
{
    assert(outcomes.take(k + 1).drop_last() =~= outcomes.take(k));
}

/// Once finished, a deletion stays finished with the same result.
proof fn lemma_finished_stays(outcomes: Seq<StepOutcome>, k: int)
    requires
        0 <= k <= outcomes.len(),
        run_deletion(outcomes.take(k)) is Finished,
    ensures
        forall|m: int| k <= m <= outcomes.len() ==> #[trigger] run_deletion(outcomes.take(m)) == run_deletion(outcomes.take(k)),
    decreases outcomes.len() - k,
{
    if k < outcomes.len() {
        lemma_run_take_succ(outcomes, k);
        lemma_finished_stays(outcomes, k + 1);
    }
}

/// A failed write probe leaves the root untouched: when writing the marker, or
/// removing it again, fails, the root's removal is never reached and the
/// deletion ends with `WritePermission`.
pub proof fn lemma_probe_failure_spares_root(outcomes: Seq<StepOutcome>)
    requires
        outcomes.len() >= 1,
        outcomes[0] is Failed || (outcomes.len() >= 2 && outcomes[0] is Done && outcomes[1] is Failed),
    ensures
        forall|k: int| 0 <= k <= outcomes.len() ==> !(#[trigger] run_deletion(outcomes.take(k)) is RemoveRoot),
        run_deletion(outcomes) matches DeletionStep::Finished(Err(DeleterError::WritePermission(_))),
{
    assert(outcomes.take(0) =~= seq![]);
    assert(outcomes.take(outcomes.len() as int) =~= outcomes);
    lemma_run_take_succ(outcomes, 0);
    let end: int = if outcomes[0] is Failed { 1 } else { 2 };
    if end == 2 {
        lemma_run_take_succ(outcomes, 1);
    }
    lemma_finished_stays(outcomes, end);
    assert forall|k: int| 0 <= k <= outcomes.len() implies !(#[trigger] run_deletion(outcomes.take(k)) is RemoveRoot) by {
        if k >= end {
            assert(run_deletion(outcomes.take(k)) == run_deletion(outcomes.take(end)));
        }
    }
    assert(run_deletion(outcomes.take(outcomes.len() as int)) == run_deletion(outcomes.take(end)));
}

/// Once the probe has passed, a failed removal of the root is what the
/// deletion reports, whatever follows it.
pub proof fn lemma_removal_failure_reported(outcomes: Seq<StepOutcome>, e: String)
    requires
        outcomes.len() >= 3,
        outcomes[0] is Done,
        outcomes[1] is Done,
        outcomes[2] == StepOutcome::Failed(e),
    ensures
        run_deletion(outcomes) == DeletionStep::Finished(Err(DeleterError::RemoveDir(e))),
{
    assert(outcomes.take(0) =~= seq![]);
    assert(outcomes.take(outcomes.len() as int) =~= outcomes);
    lemma_run_take_succ(outcomes, 0);
    lemma_run_take_succ(outcomes, 1);
    lemma_run_take_succ(outcomes, 2);
    lemma_finished_stays(outcomes, 3);
    assert(run_deletion(outcomes.take(outcomes.len() as int)) == run_deletion(outcomes.take(3)));
}

/// Once the root is removed the deletion succeeds, however the version
/// manager's cleanup went.
pub proof fn lemma_cleanup_never_fails_deletion(outcomes: Seq<StepOutcome>)
    requires
        outcomes.len() >= 4,
        outcomes[0] is Done,
        outcomes[1] is Done,
        outcomes[2] is Done,
    ensures
        run_deletion(outcomes) == DeletionStep::Finished(Ok::<(), DeleterError>(())),
{
    assert(outcomes.take(0) =~= seq![]);
    assert(outcomes.take(outcomes.len() as int) =~= outcomes);
    lemma_run_take_succ(outcomes, 0);
    lemma_run_take_succ(outcomes, 1);
    lemma_run_take_succ(outcomes, 2);
    lemma_run_take_succ(outcomes, 3);
    lemma_finished_stays(outcomes, 4);
    assert(run_deletion(outcomes.take(outcomes.len() as int)) == run_deletion(outcomes.take(4)));
}

} // verus!
