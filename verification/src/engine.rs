use vstd::prelude::*;
use crate::database::{Database, DatabaseView};
use crate::flow::{Outcome, OutcomeView, Progress, ProgressView};

verus! {

/// What an operation comes to when each of its requests is carried out on the
/// database at `now`: the database afterwards, and the outcome.
pub open spec fn run_spec(db: DatabaseView, progress: ProgressView, now: i128) -> (
    DatabaseView,
    OutcomeView,
)
    decreases progress.steps_left(),
{
    match progress {
        ProgressView::Done(outcome) => (db, outcome),
        ProgressView::Ask(request, flow) => {
            let (next_db, reply) = db.perform(request, now);
            run_spec(next_db, flow.resume(reply), now)
        },
    }
}

/// Runs an operation to its end against the database held in memory, with
/// `now` as the time of every request.
pub fn run(db: &mut Database, start: Progress, now: i128) -> (outcome: Outcome)
    requires
        old(db).wf(),
    ensures
        final(db).wf(),
        (final(db)@, outcome@) == run_spec(old(db)@, start@, now),
{
    let mut progress = start;
    loop
        invariant
            db.wf(),
            run_spec(db@, progress@, now) == run_spec(old(db)@, start@, now),
        decreases progress@.steps_left(),
    {
        match progress {
            Progress::Done(outcome) => {
                return outcome;
            },
            Progress::Ask(request, flow) => {
                let reply = db.perform(request, now);
                progress = flow.resume(reply);
            },
        }
    }
}

} // verus!
