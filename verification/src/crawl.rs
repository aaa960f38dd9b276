//! A run as a whole: the event loop, the workers and the channels between
//! them, and what holds of every run.
//!
//! The parts of a run take their steps in any order. Each step is one call
//! of a function of this library, and changes the run as that function's
//! contract says. The laws below hold of every order of steps.
//!
//! A run is followed up to its shutdown. The stop sentinels that a shutdown
//! sends stand for no work, and are no part of it.

use crate::counter::count_after_result;
use crate::errors::CrablerError;
use crate::work::{MarkupPayload, WorkInput, WorkOutput};
use crate::worker::{step_of, visited_after, WorkerStep};
use vstd::prelude::*;

verus! {

/// The state of a run.
pub struct Crawl {
    /// The URLs that have been claimed.
    pub visited: Set<Seq<char>>,
    /// The count of outstanding work.
    pub pending: int,
    /// The work enqueued and not yet taken by a worker, oldest first.
    pub work: Seq<WorkInput>,
    /// The fetches that workers have under way.
    pub fetching: Seq<WorkerStep>,
    /// The results reported and not yet handled by the event loop, oldest
    /// first.
    pub results: Seq<WorkOutput>,
    /// The URL of every fetch that was begun, in the order of their start.
    pub fetched: Seq<Seq<char>>,
    /// How many items have been enqueued.
    pub enqueued: nat,
    /// How many results the event loop has handled.
    pub retired: nat,
}

/// How a fetch ended.
pub enum Outcome {
    /// A fetch of a page; see [`WorkOutput::of_response`].
    Page(Result<MarkupPayload, CrablerError>),
    /// A fetch into a file; see [`WorkOutput::of_download`].
    File(Result<(), CrablerError>),
}

/// One step of a run.
pub enum Event {
    /// A visit or a download is scheduled before the loop runs; see
    /// [`crate::Crabler::navigate`].
    Enqueue { item: WorkInput },
    /// A worker takes the oldest enqueued item; see
    /// [`crate::Worker::process_message`].
    Take,
    /// The fetch at `index` among those under way ends; see
    /// [`WorkOutput::try_from_response`] and
    /// [`WorkOutput::try_from_download`].
    Finish { index: int, outcome: Outcome },
    /// The event loop handles the oldest result, and the handlers enqueue
    /// `enqueued`; see [`crate::Crabler::process_output`].
    Handle { enqueued: Seq<WorkInput> },
}

/// The result that a worker reports when the fetch of `step` ends with
/// `outcome`.
pub open spec fn reported(step: WorkerStep, outcome: Outcome) -> WorkOutput {
    match (step, outcome) {
        (WorkerStep::Fetch { url }, Outcome::Page(response)) => WorkOutput::of_response(
            response,
            url,
        ),
        (WorkerStep::FetchFile { url, destination }, Outcome::File(written)) => {
            WorkOutput::of_download(written, url, destination)
        },
        _ => arbitrary(),
    }
}

/// Whether `outcome` is of the kind that the fetch of `step` ends with.
pub open spec fn ends(step: WorkerStep, outcome: Outcome) -> bool {
    match (step, outcome) {
        (WorkerStep::Fetch { .. }, Outcome::Page(_)) => true,
        (WorkerStep::FetchFile { .. }, Outcome::File(_)) => true,
        _ => false,
    }
}

/// Whether none of `items` is a stop sentinel.
pub open spec fn all_work(items: Seq<WorkInput>) -> bool {
    forall|i: int| 0 <= i < items.len() ==> !(#[trigger] items[i] is Exit)
}

impl Crawl {
    /// A run in which nothing has happened yet.
    pub open spec fn start() -> Crawl {
        Crawl {
            visited: Set::empty(),
            pending: 0,
            work: Seq::empty(),
            fetching: Seq::empty(),
            results: Seq::empty(),
            fetched: Seq::empty(),
            enqueued: 0,
            retired: 0,
        }
    }

    /// The number of units of work that are on their way: enqueued, being
    /// fetched, or reported and not yet handled.
    pub open spec fn in_flight(self) -> nat {
        self.work.len() + self.fetching.len() + self.results.len()
    }

    /// Whether nothing is on its way anywhere.
    pub open spec fn quiescent(self) -> bool {
        self.work.len() == 0 && self.fetching.len() == 0 && self.results.len() == 0
    }

    /// Whether `event` can happen.
    pub open spec fn enabled(self, event: Event) -> bool {
        match event {
            Event::Enqueue { item } => !(item is Exit),
            Event::Take => self.work.len() > 0,
            Event::Finish { index, outcome } => 0 <= index < self.fetching.len() && ends(
                self.fetching[index],
                outcome,
            ),
            Event::Handle { enqueued } => self.results.len() > 0 && all_work(enqueued),
        }
    }

    /// The run after `event`.
    pub open spec fn after(self, event: Event) -> Crawl {
        match event {
            Event::Enqueue { item } => Crawl {
                pending: self.pending + 1,
                work: self.work.push(item),
                enqueued: self.enqueued + 1,
                ..self
            },
            Event::Take => {
                let item = self.work[0];
                let taken = Crawl {
                    visited: visited_after(self.visited, item),
                    work: self.work.skip(1),
                    ..self
                };
                match step_of(self.visited, item) {
                    WorkerStep::Emit(output) => Crawl {
                        results: self.results.push(output),
                        ..taken
                    },
                    WorkerStep::Stop => taken,
                    fetch => Crawl {
                        fetching: self.fetching.push(fetch),
                        fetched: self.fetched.push(item.url()),
                        ..taken
                    },
                }
            },
            Event::Finish { index, outcome } => Crawl {
                fetching: self.fetching.remove(index),
                results: self.results.push(reported(self.fetching[index], outcome)),
                ..self
            },
            Event::Handle { enqueued } => Crawl {
                pending: count_after_result(self.pending, enqueued.len() as int),
                work: self.work + enqueued,
                results: self.results.skip(1),
                enqueued: self.enqueued + enqueued.len(),
                retired: self.retired + 1,
                ..self
            },
        }
    }

    /// Whether the events of `events` can happen one after the other.
    pub open spec fn possible(self, events: Seq<Event>) -> bool
        decreases events.len(),
    {
        if events.len() == 0 {
            true
        } else {
            self.possible(events.drop_last()) && self.after_all(events.drop_last()).enabled(
                events.last(),
            )
        }
    }

    /// The run after all of `events`, in their order.
    pub open spec fn after_all(self, events: Seq<Event>) -> Crawl
        decreases events.len(),
    {
        if events.len() == 0 {
            self
        } else {
            self.after_all(events.drop_last()).after(events.last())
        }
    }

    /// What holds at every moment of a run.
    pub open spec fn consistent(self) -> bool {
        &&& self.pending == self.in_flight()
        &&& self.enqueued == self.retired + self.in_flight()
        &&& all_work(self.work)
        &&& self.fetched.no_duplicates()
        &&& forall|i: int| 0 <= i < self.fetched.len() ==> self.visited.contains(#[trigger] self.fetched[i])
        &&& forall|i: int|
            0 <= i < self.fetching.len() ==> (#[trigger] self.fetching[i] is Fetch
                || self.fetching[i] is FetchFile)
    }

    /// A step keeps what holds at every moment.
    pub proof fn lemma_step_keeps_consistent(self, event: Event)
        requires
            self.consistent(),
            self.enabled(event),
        ensures
            self.after(event).consistent(),
    {
        if event is Take {
            let next = self.after(event);
            assert(forall|i: int| 0 <= i < next.work.len() ==> next.work[i] == self.work[i + 1]);
        }
    }

    /// Every run keeps what holds at every moment.
    pub proof fn lemma_run_keeps_consistent(events: Seq<Event>)
        requires
            Crawl::start().possible(events),
        ensures
            Crawl::start().after_all(events).consistent(),
        decreases events.len(),
    {
        if events.len() > 0 {
            Self::lemma_run_keeps_consistent(events.drop_last());
            Crawl::start().after_all(events.drop_last()).lemma_step_keeps_consistent(events.last());
        }
    }
}

/// Whether a result stands for a fetch: every result but the report that a
/// URL had been claimed before.
pub open spec fn is_fresh(output: WorkOutput) -> bool {
    !(output is Noop)
}

impl Crawl {
    /// The count of outstanding work is at every moment the number of units
    /// of work that are on their way. So it is never negative, and it is
    /// zero exactly when nothing is on its way anywhere.
    pub proof fn law_counter_counts_work(events: Seq<Event>)
        requires
            Crawl::start().possible(events),
        ensures
            Crawl::start().after_all(events).pending == Crawl::start().after_all(events).in_flight(),
            Crawl::start().after_all(events).pending >= 0,
            Crawl::start().after_all(events).pending == 0 <==> Crawl::start().after_all(
                events,
            ).quiescent(),
    {
        Self::lemma_run_keeps_consistent(events);
    }

    /// Whenever the event loop has a result to handle, work is outstanding:
    /// retiring the result does not take the count below zero.
    pub proof fn law_result_is_counted(events: Seq<Event>, enqueued: Seq<WorkInput>)
        requires
            Crawl::start().possible(events),
            Crawl::start().after_all(events).enabled(Event::Handle { enqueued }),
        ensures
            Crawl::start().after_all(events).pending >= 1,
            Crawl::start().after_all(events).after(Event::Handle { enqueued }).pending
                == Crawl::start().after_all(events).pending + enqueued.len() - 1,
    {
        Self::lemma_run_keeps_consistent(events);
    }

    /// No URL is fetched more than once in a run.
    pub proof fn law_one_fetch_per_url(events: Seq<Event>)
        requires
            Crawl::start().possible(events),
        ensures
            Crawl::start().after_all(events).fetched.no_duplicates(),
    {
        Self::lemma_run_keeps_consistent(events);
    }

    /// No work is lost: every item that was enqueued has had its result
    /// handled, once, or is still on its way. When a run is complete, as
    /// many results have been handled as items were enqueued.
    pub proof fn law_no_lost_work(events: Seq<Event>)
        requires
            Crawl::start().possible(events),
        ensures
            Crawl::start().after_all(events).enqueued == Crawl::start().after_all(events).retired
                + Crawl::start().after_all(events).in_flight(),
            Crawl::start().after_all(events).pending == 0 ==> Crawl::start().after_all(
                events,
            ).enqueued == Crawl::start().after_all(events).retired,
    {
        Self::lemma_run_keeps_consistent(events);
    }

    /// Work that asks for a URL that has been claimed before fetches
    /// nothing: the worker that takes it reports that there is nothing to
    /// do, and the count stays as it is.
    pub proof fn law_revisit_fetches_nothing(self)
        requires
            self.consistent(),
            self.enabled(Event::Take),
            self.visited.contains(self.work[0].url()),
        ensures
            self.after(Event::Take).fetched == self.fetched,
            self.after(Event::Take).fetching == self.fetching,
            self.after(Event::Take).visited == self.visited,
            self.after(Event::Take).results.len() == self.results.len() + 1,
            self.after(Event::Take).results.drop_last() == self.results,
            self.after(Event::Take).results.last() matches WorkOutput::Noop(url) && url@
                == self.work[0].url(),
            self.after(Event::Take).pending == self.pending,
    {
    }

    /// When the event loop handles the report that a URL had been claimed
    /// before, exactly the one unit of work is retired, and nothing is
    /// fetched.
    pub proof fn law_revisit_is_retired_once(self, enqueued: Seq<WorkInput>)
        requires
            self.consistent(),
            self.enabled(Event::Handle { enqueued }),
            self.results[0] is Noop,
        ensures
            self.pending >= 1,
            self.after(Event::Handle { enqueued }).pending == self.pending + enqueued.len() - 1,
            self.after(Event::Handle { enqueued }).retired == self.retired + 1,
            self.after(Event::Handle { enqueued }).fetched == self.fetched,
            self.after(Event::Handle { enqueued }).fetching == self.fetching,
    {
    }

    /// While work is outstanding, some part of the run can take a step: a
    /// worker can take an item, a fetch can end, be it by failing, or the
    /// event loop can handle a result.
    pub proof fn law_outstanding_work_moves(self, cause: CrablerError)
        requires
            self.consistent(),
            self.pending > 0,
        ensures
            self.enabled(Event::Take) || self.enabled(
                Event::Handle { enqueued: Seq::<WorkInput>::empty() },
            ) || self.enabled(Event::Finish { index: 0, outcome: Outcome::Page(Err(cause)) })
                || self.enabled(Event::Finish { index: 0, outcome: Outcome::File(Err(cause)) }),
    {
    }

    /// Whether the run stays within a crawl graph whose URLs are `universe`:
    /// there are finitely many of them, and all enqueued work asks for one
    /// of them.
    pub open spec fn within(self, universe: Set<Seq<char>>) -> bool {
        &&& universe.finite()
        &&& forall|i: int| 0 <= i < self.work.len() ==> universe.contains(#[trigger] self.work[i].url())
    }

    /// Whether `event` is a step of a crawl of the graph whose URLs are
    /// `universe`: no work comes from outside, the handlers ask only for
    /// URLs of the graph, and they ask for nothing when told that a URL had
    /// been claimed before.
    pub open spec fn follows(self, event: Event, universe: Set<Seq<char>>) -> bool {
        match event {
            Event::Enqueue { .. } => false,
            Event::Handle { enqueued } => {
                &&& self.results[0] is Noop ==> enqueued.len() == 0
                &&& forall|i: int|
                    0 <= i < enqueued.len() ==> universe.contains(#[trigger] enqueued[i].url())
            },
            _ => true,
        }
    }

    /// The number of pages of the graph that the handlers have yet to see:
    /// URLs not yet claimed, fetches under way, and results of fetches that
    /// wait to be handled.
    pub open spec fn unexplored(self, universe: Set<Seq<char>>) -> nat {
        universe.difference(self.visited).len() + self.fetching.len() + self.results.filter(
            |output: WorkOutput| is_fresh(output),
        ).len()
    }

    /// The steps that the work on its way still needs, at the least.
    pub open spec fn backlog(self) -> nat {
        3 * self.work.len() + 2 * self.fetching.len() + self.results.len()
    }

    /// A step of a crawl of a finite graph leaves fewer pages to see, or as
    /// many pages and less work on its way.
    pub proof fn lemma_step_makes_progress(self, event: Event, universe: Set<Seq<char>>)
        requires
            self.consistent(),
            self.within(universe),
            self.enabled(event),
            self.follows(event, universe),
        ensures
            self.after(event).consistent(),
            self.after(event).within(universe),
            self.after(event).unexplored(universe) < self.unexplored(universe) || (self.after(
                event,
            ).unexplored(universe) == self.unexplored(universe) && self.after(event).backlog()
                < self.backlog()),
    {
        broadcast use {
            vstd::set::axiom_set_difference_finite,
            vstd::set::axiom_set_remove_len,
            vstd::set::axiom_set_remove_finite,
        };

        self.lemma_step_keeps_consistent(event);
        let next = self.after(event);
        let fresh = |output: WorkOutput| is_fresh(output);
        match event {
            Event::Enqueue { item } => {},
            Event::Take => {
                let item = self.work[0];
                assert(forall|i: int|
                    0 <= i < next.work.len() ==> next.work[i] == self.work[i + 1]);
                match step_of(self.visited, item) {
                    WorkerStep::Emit(output) => {
                        assert(next.visited =~= self.visited);
                        self.results.lemma_filter_len_push(fresh, output);
                    },
                    WorkerStep::Stop => {},
                    fetch => {
                        assert(universe.difference(next.visited) =~= universe.difference(
                            self.visited,
                        ).remove(item.url()));
                    },
                }
            },
            Event::Finish { index, outcome } => {
                self.results.lemma_filter_len_push(fresh, reported(self.fetching[index], outcome));
            },
            Event::Handle { enqueued } => {
                let first = self.results[0];
                assert(self.results =~= seq![first] + self.results.skip(1));
                self.results.skip(1).lemma_filter_prepend(first, fresh);
            },
        }
    }

    /// The run after the first `count` of the events `events`.
    pub open spec fn state_at(self, events: spec_fn(nat) -> Event, count: nat) -> Crawl
        decreases count,
    {
        if count == 0 {
            self
        } else {
            self.state_at(events, (count - 1) as nat).after(events((count - 1) as nat))
        }
    }

    /// Taking the first event apart from the others leads to the same run.
    proof fn lemma_state_at_shift(self, events: spec_fn(nat) -> Event, count: nat)
        ensures
            self.state_at(events, count + 1) == self.after(events(0)).state_at(
                |i: nat| events(i + 1),
                count,
            ),
        decreases count,
    {
        if count > 0 {
            self.lemma_state_at_shift(events, (count - 1) as nat);
        }
        assert(self.state_at(events, 1) == self.state_at(events, 0).after(events(0)));
    }

    /// Whether the event at `count` in `events` does not go on the crawl of
    /// the graph whose URLs are `universe`: it cannot happen at that moment,
    /// or it is no step of such a crawl.
    pub open spec fn stops_at(
        self,
        universe: Set<Seq<char>>,
        events: spec_fn(nat) -> Event,
        count: nat,
    ) -> bool {
        !(self.state_at(events, count).enabled(events(count)) && self.state_at(
            events,
            count,
        ).follows(events(count), universe))
    }

    /// A crawl of a finite graph comes to an end: no endless succession of
    /// events is a crawl of the graph. At some place in it stands an event
    /// that does not go on the crawl.
    pub proof fn law_crawl_ends(self, universe: Set<Seq<char>>, events: spec_fn(nat) -> Event)
        requires
            self.consistent(),
            self.within(universe),
        ensures
            exists|count: nat| #[trigger] self.stops_at(universe, events, count),
        decreases self.unexplored(universe), self.backlog(),
    {
        if self.enabled(events(0)) && self.follows(events(0), universe) {
            let next = self.after(events(0));
            let rest = |i: nat| events(i + 1);
            self.lemma_step_makes_progress(events(0), universe);
            next.law_crawl_ends(universe, rest);
            let count = choose|count: nat| #[trigger] next.stops_at(universe, rest, count);
            self.lemma_state_at_shift(events, count);
            assert(self.stops_at(universe, events, count + 1));
        } else {
            assert(self.stops_at(universe, events, 0));
        }
    }
}

} // verus!
