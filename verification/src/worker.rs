//! What a worker does with the work it receives.
//!
//! A worker claims the URL of each item before anything is fetched, so that
//! no URL is fetched twice however many workers run. Fetching and writing are
//! left to whoever drives the worker: a step names the fetch to perform, and
//! [`WorkOutput::try_from_response`] and [`WorkOutput::try_from_download`]
//! turn its outcome into the result to report.

use crate::errors::CrablerError;
use crate::visited::VisitedSet;
use crate::work::{WorkInput, WorkOutput};
use vstd::prelude::*;

verus! {

/// What a worker is to do next.
#[derive(Clone, Debug, PartialEq, Eq)]
pub enum WorkerStep {
    /// Fetch the page at `url`, then report the outcome.
    Fetch { url: String },
    /// Fetch what is at `url`, write it to the file `destination`, then
    /// report the outcome.
    FetchFile { url: String, destination: String },
    /// Report this result; nothing is to be fetched.
    Emit(WorkOutput),
    /// Report [`WorkOutput::Exit`] and stop.
    Stop,
}

impl WorkerStep {
    /// Whether the step fetches `url`.
    pub open spec fn fetches(&self, url: Seq<char>) -> bool {
        match self {
            WorkerStep::Fetch { url: fetched } => fetched@ == url,
            WorkerStep::FetchFile { url: fetched, .. } => fetched@ == url,
            _ => false,
        }
    }
}

/// The step for `item` when the URLs in `visited` have been claimed: a fetch
/// where the item's URL is new, the report that there is nothing to do where
/// it is not, and the stop for the sentinel.
pub open spec fn step_of(visited: Set<Seq<char>>, item: WorkInput) -> WorkerStep {
    match item {
        WorkInput::Navigate(url) => if visited.contains(url@) {
            WorkerStep::Emit(WorkOutput::Noop(url))
        } else {
            WorkerStep::Fetch { url }
        },
        WorkInput::Download { url, destination } => if visited.contains(url@) {
            WorkerStep::Emit(WorkOutput::Noop(url))
        } else {
            WorkerStep::FetchFile { url, destination }
        },
        WorkInput::Exit => WorkerStep::Stop,
    }
}

/// The claimed URLs once `item` has been taken: its URL is among them.
pub open spec fn visited_after(visited: Set<Seq<char>>, item: WorkInput) -> Set<Seq<char>> {
    if item is Exit {
        visited
    } else {
        visited.insert(item.url())
    }
}

/// The claimed URLs once the first `count` of `items` have been taken.
pub open spec fn visited_before(visited: Set<Seq<char>>, items: Seq<WorkInput>, count: int) -> Set<
    Seq<char>,
>
    decreases count,
{
    if count <= 0 {
        visited
    } else {
        visited_after(visited_before(visited, items, count - 1), items[count - 1])
    }
}

/// Whether `steps` are the steps of a worker that starts with the URLs in
/// `visited` claimed and receives `items`: one step for each item in turn,
/// up to and with the first stop sentinel, or to the end where there is none.
pub open spec fn worker_ran(
    visited: Set<Seq<char>>,
    items: Seq<WorkInput>,
    steps: Seq<WorkerStep>,
) -> bool {
    &&& steps.len() <= items.len()
    &&& forall|j: int|
        0 <= j < steps.len() ==> #[trigger] steps[j] == step_of(
            visited_before(visited, items, j),
            items[j],
        )
    &&& forall|j: int| 0 <= j < steps.len() - 1 ==> !(#[trigger] items[j] is Exit)
    &&& (steps.len() == items.len() || (steps.len() > 0 && items[steps.len() - 1] is Exit))
}

/// Every URL that one of the first `count` items asks for is claimed once
/// they have been taken, and so is every URL that was claimed before.
proof fn lemma_taken_is_claimed(
    visited: Set<Seq<char>>,
    items: Seq<WorkInput>,
    count: int,
    index: int,
)
    requires
        0 <= index < count <= items.len(),
        !(items[index] is Exit),
    ensures
        visited_before(visited, items, count).contains(items[index].url()),
        visited.subset_of(visited_before(visited, items, count)),
    decreases count,
{
    lemma_claims_stay(visited, items, count);
    if index < count - 1 {
        lemma_taken_is_claimed(visited, items, count - 1, index);
    } else {
        lemma_claims_stay(visited, items, count - 1);
    }
}

/// Taking items withdraws no claim.
proof fn lemma_claims_stay(visited: Set<Seq<char>>, items: Seq<WorkInput>, count: int)
    ensures
        visited.subset_of(visited_before(visited, items, count)),
    decreases count,
{
    if count > 0 {
        lemma_claims_stay(visited, items, count - 1);
    }
}

/// Of the steps of a worker no two fetch the same URL, and none fetches a
/// URL that was claimed before the worker began: however often a URL is
/// asked for, it is fetched at most once.
pub proof fn law_worker_fetches_once(
    visited: Set<Seq<char>>,
    items: Seq<WorkInput>,
    steps: Seq<WorkerStep>,
    first: int,
    second: int,
    url: Seq<char>,
)
    requires
        worker_ran(visited, items, steps),
        0 <= first < second < steps.len(),
        steps[second].fetches(url),
    ensures
        !steps[first].fetches(url),
        !visited.contains(url),
{
    lemma_claims_stay(visited, items, second);
    if steps[first].fetches(url) {
        lemma_taken_is_claimed(visited, items, second, first);
    }
}

/// One of the workers of a run.
#[derive(Clone, Copy, Debug, PartialEq, Eq, Structural)]
pub struct Worker {
    /// The number of workers that were started before this one.
    pub id: usize,
}

impl Worker {
    /// The worker before which `id` workers were started.
    pub fn new(id: usize) -> (worker: Self)
        ensures
            worker.id == id,
    {
        Worker { id }
    }

    /// Whether a worker whose run ended with `ended` is to be started again:
    /// it is after a failure, unless the channel for its results is closed,
    /// and never after it was told to stop.
    pub fn restarts(ended: &Result<(), CrablerError>, results_closed: bool) -> (again: bool)
        ensures
            again == (*ended is Err && !results_closed),
    {
        ended.is_err() && !results_closed
    }

    /// Takes up a visit of `url`: claims it, and asks for the fetch if the
    /// claim was the first.
    pub fn navigate(&self, visited: &mut VisitedSet, url: String) -> (step: WorkerStep)
        requires
            old(visited).wf(),
        ensures
            final(visited).wf(),
            step == step_of(old(visited)@, WorkInput::Navigate(url)),
            final(visited)@ == old(visited)@.insert(url@),
    {
        if visited.claim(url.as_str()) {
            WorkerStep::Fetch { url }
        } else {
            WorkerStep::Emit(WorkOutput::Noop(url))
        }
    }

    /// Takes up a download of `url` into the file `destination`: claims the
    /// URL, and asks for the fetch if the claim was the first.
    pub fn download(&self, visited: &mut VisitedSet, url: String, destination: String) -> (step:
        WorkerStep)
        requires
            old(visited).wf(),
        ensures
            final(visited).wf(),
            step == step_of(old(visited)@, WorkInput::Download { url, destination }),
            final(visited)@ == old(visited)@.insert(url@),
    {
        if visited.claim(url.as_str()) {
            WorkerStep::FetchFile { url, destination }
        } else {
            WorkerStep::Emit(WorkOutput::Noop(url))
        }
    }

    /// Takes up one item of work.
    pub fn process_message(&self, visited: &mut VisitedSet, workinput: WorkInput) -> (step:
        WorkerStep)
        requires
            old(visited).wf(),
        ensures
            final(visited).wf(),
            step == step_of(old(visited)@, workinput),
            final(visited)@ == visited_after(old(visited)@, workinput),
    {
        match workinput {
            WorkInput::Navigate(url) => self.navigate(visited, url),
            WorkInput::Download { url, destination } => self.download(visited, url, destination),
            WorkInput::Exit => WorkerStep::Stop,
        }
    }

    /// Runs the worker on the items it receives, in their order, until it is
    /// told to stop or nothing more comes. Items behind a stop sentinel are
    /// not taken up.
    pub fn start(&self, visited: &mut VisitedSet, workinputs: Vec<WorkInput>) -> (steps: Vec<
        WorkerStep,
    >)
        requires
            old(visited).wf(),
        ensures
            final(visited).wf(),
            worker_ran(old(visited)@, workinputs@, steps@),
            final(visited)@ == visited_before(old(visited)@, workinputs@, steps@.len() as int),
    {
        let mut steps: Vec<WorkerStep> = Vec::new();
        for workinput in iter: workinputs
            invariant
                iter.seq() == workinputs@,
                visited.wf(),
                steps@.len() == iter.index(),
                visited@ == visited_before(old(visited)@, workinputs@, iter.index()),
                forall|j: int|
                    0 <= j < steps@.len() ==> #[trigger] steps@[j] == step_of(
                        visited_before(old(visited)@, workinputs@, j),
                        workinputs@[j],
                    ),
                forall|j: int| 0 <= j < steps@.len() ==> !(#[trigger] workinputs@[j] is Exit),
        {
            let step = self.process_message(visited, workinput);
            let stop = match step {
                WorkerStep::Stop => true,
                _ => false,
            };
            steps.push(step);
            if stop {
                return steps;
            }
        }
        steps
    }
}

} // verus!
