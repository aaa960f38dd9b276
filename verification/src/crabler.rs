//! The event loop: it reports results to the handlers, passes on the work
//! they ask for, and tells when the run is complete.

use crate::counter::{count_after_result, PendingCounter};
use crate::errors::CrablerError;
use crate::dispatch::{dispatch_plan, plan_of, Dispatch, DispatchPlan};
use crate::html::{owned_selectors, HtmlDispatch};
use crate::opts::Opts;
use crate::response::Response;
use crate::scraper::WebScraper;
use crate::sender::WorkSender;
use crate::work::{WorkInput, WorkOutput};
use crate::worker::Worker;
use vstd::prelude::*;

verus! {

/// The stop sentinels for `workers` workers: one for each.
pub open spec fn exits(workers: nat) -> Seq<WorkInput> {
    Seq::new(workers, |i: int| WorkInput::Exit)
}

/// Whether all of `outputs` are echoes of workers' stops, which are reported
/// to no handler.
pub open spec fn all_stops(outputs: Seq<WorkOutput>) -> bool {
    forall|i: int| 0 <= i < outputs.len() ==> #[trigger] outputs[i] is Exit
}

/// Whether `item` asks for a visit of the URL with text `url`.
pub open spec fn is_visit_of(item: WorkInput, url: Seq<char>) -> bool {
    item matches WorkInput::Navigate(target) && target@ == url
}

/// The coordinator of one crawl run.
///
/// It holds the handlers, the sending side of the work channel with the
/// count of outstanding work, and the number of workers. Whoever drives the
/// run passes the enqueued work on to the workers and hands their results
/// back, one at a time.
pub struct Crabler<T: WebScraper> {
    scraper: T,
    workinput_tx: WorkSender,
    workers: usize,
    follow_redirects: bool,
}

impl<T: WebScraper> Crabler<T> {
    /// The handlers.
    pub closed spec fn handlers(&self) -> T {
        self.scraper
    }

    /// The count of outstanding work.
    pub closed spec fn pending(&self) -> nat {
        self.workinput_tx.pending()
    }

    /// The work enqueued and not yet passed on to the workers, oldest first.
    pub closed spec fn enqueued(&self) -> Seq<WorkInput> {
        self.workinput_tx.queued()
    }

    /// The number of workers started.
    pub closed spec fn workers(&self) -> nat {
        self.workers as nat
    }

    /// Whether the run has been shut down.
    pub closed spec fn is_closed(&self) -> bool {
        self.workinput_tx.is_closed()
    }

    /// Whether fetches are to follow redirects.
    pub closed spec fn follows_redirects(&self) -> bool {
        self.follow_redirects
    }

    /// Whether `count` more items can be enqueued: none always can; any
    /// other number until the run is shut down, as long as the counter can
    /// count them.
    pub open spec fn accepts(&self, count: nat) -> bool {
        count == 0 || (!self.is_closed() && self.pending() + count <= usize::MAX)
    }

    /// Whether nothing but the count and the enqueued work differs between
    /// `self` and `other`.
    pub open spec fn same_setup(&self, other: &Self) -> bool {
        &&& self.workers() == other.workers()
        &&& self.is_closed() == other.is_closed()
        &&& self.follows_redirects() == other.follows_redirects()
    }

    /// Whether `self` comes after `before` in a run: what was enqueued then
    /// is still enqueued, in front of what has been enqueued since.
    pub open spec fn extends(&self, before: &Self) -> bool {
        &&& self.enqueued().len() >= before.enqueued().len()
        &&& self.enqueued().take(before.enqueued().len() as int) =~= before.enqueued()
    }

    /// The number of items enqueued since `before`.
    pub open spec fn grown(&self, before: &Self) -> int {
        self.enqueued().len() - before.enqueued().len()
    }

    /// A coordinator for `scraper` with nothing enqueued, nothing
    /// outstanding and no worker.
    pub fn new(scraper: T, opts: &Opts) -> (crabler: Self)
        ensures
            crabler.handlers() == scraper,
            crabler.pending() == 0,
            crabler.enqueued() == Seq::<WorkInput>::empty(),
            crabler.workers() == 0,
            !crabler.is_closed(),
            crabler.follows_redirects() == opts.follow_redirects,
    {
        Crabler {
            scraper,
            workinput_tx: WorkSender::new(PendingCounter::new()),
            workers: 0,
            follow_redirects: opts.follow_redirects,
        }
    }

    /// The handlers.
    pub fn scraper(&self) -> (scraper: &T)
        ensures
            *scraper == self.handlers(),
    {
        &self.scraper
    }

    /// Gives up the coordinator for its handlers.
    pub fn into_scraper(self) -> (scraper: T)
        ensures
            scraper == self.handlers(),
    {
        self.scraper
    }

    /// The count of outstanding work.
    pub fn outstanding(&self) -> (count: usize)
        ensures
            count == self.pending(),
    {
        self.workinput_tx.outstanding()
    }

    /// Whether fetches are to follow redirects.
    pub fn follow_redirects(&self) -> (follow: bool)
        ensures
            follow == self.follows_redirects(),
    {
        self.follow_redirects
    }

    /// Schedules a visit of `url` by one of the workers.
    ///
    /// Fails, with nothing enqueued, once the run is shut down or where the
    /// counter cannot count one more unit of work; the error names the URL.
    pub fn navigate(&mut self, url: &str) -> (result: Result<(), CrablerError>)
        ensures
            final(self).handlers() == old(self).handlers(),
            old(self).accepts(1) ==> {
                &&& result is Ok
                &&& final(self).same_setup(old(self))
                &&& final(self).extends(old(self))
                &&& final(self).grown(old(self)) == 1
                &&& is_visit_of(final(self).enqueued().last(), url@)
                &&& final(self).pending() == old(self).pending() + 1
            },
            !old(self).accepts(1) ==> {
                &&& result matches Err(CrablerError::AsyncSendError(refused))
                &&& refused@ == url@
                &&& final(self).enqueued() == old(self).enqueued()
                &&& final(self).same_setup(old(self))
                &&& final(self).pending() == old(self).pending()
            },
    {
        let target = url.to_owned();
        if self.workinput_tx.ready() {
            let _ = self.workinput_tx.send(WorkInput::Navigate(target));
            Ok(())
        } else {
            Err(CrablerError::AsyncSendError(target))
        }
    }

    /// Registers one more worker and returns it.
    pub fn start_worker(&mut self) -> (worker: Worker)
        requires
            old(self).workers() < usize::MAX,
        ensures
            final(self).handlers() == old(self).handlers(),
            worker.id == old(self).workers(),
            final(self).workers() == old(self).workers() + 1,
            final(self).pending() == old(self).pending(),
            final(self).enqueued() == old(self).enqueued(),
            final(self).is_closed() == old(self).is_closed(),
            final(self).follows_redirects() == old(self).follows_redirects(),
    {
        let worker = Worker::new(self.workers);
        self.workers = self.workers + 1;
        worker
    }

    /// Sets a run up as `opts` say: schedules a visit of each seed URL, in
    /// their order, then registers as many workers as are asked for and
    /// returns them.
    ///
    /// Fails at the first seed that cannot be enqueued, with the seeds before
    /// it enqueued and no worker registered; the error names the seed.
    pub fn prepare(&mut self, opts: &Opts) -> (result: Result<Vec<Worker>, CrablerError>)
        requires
            old(self).workers() + opts.threads <= usize::MAX,
        ensures
            final(self).handlers() == old(self).handlers(),
            final(self).is_closed() == old(self).is_closed(),
            final(self).follows_redirects() == old(self).follows_redirects(),
            final(self).extends(old(self)),
            final(self).pending() == old(self).pending() + final(self).grown(old(self)),
            forall|i: int|
                0 <= i < final(self).grown(old(self)) ==> is_visit_of(
                    #[trigger] final(self).enqueued()[old(self).enqueued().len() + i],
                    opts.urls@[i]@,
                ),
            old(self).accepts(opts.urls@.len()) ==> result is Ok,
            match result {
                Ok(workers) => {
                    &&& final(self).grown(old(self)) == opts.urls@.len()
                    &&& final(self).workers() == old(self).workers() + opts.threads
                    &&& workers@.len() == opts.threads
                    &&& forall|k: int|
                        0 <= k < workers@.len() ==> (#[trigger] workers@[k]).id == old(
                            self,
                        ).workers() + k
                },
                Err(error) => {
                    &&& final(self).grown(old(self)) < opts.urls@.len()
                    &&& final(self).workers() == old(self).workers()
                    &&& error matches CrablerError::AsyncSendError(refused)
                    &&& refused@ == opts.urls@[final(self).grown(old(self))]@
                },
            },
    {
        let mut seeded: usize = 0;
        while seeded < opts.urls.len()
            invariant
                seeded <= opts.urls@.len(),
                self.handlers() == old(self).handlers(),
                self.same_setup(old(self)),
                self.extends(old(self)),
                self.grown(old(self)) == seeded,
                self.pending() == old(self).pending() + seeded,
                forall|i: int|
                    0 <= i < seeded ==> is_visit_of(
                        #[trigger] self.enqueued()[old(self).enqueued().len() + i],
                        opts.urls@[i]@,
                    ),
            decreases opts.urls@.len() - seeded,
        {
            let ghost middle = *self;
            let scheduled = self.navigate(opts.urls[seeded].as_str());
            proof {
                assert(forall|i: int|
                    0 <= i < middle.enqueued().len() ==> self.enqueued()[i] == self.enqueued().take(
                        middle.enqueued().len() as int,
                    )[i]);
            }
            match scheduled {
                Ok(_) => {},
                Err(error) => {
                    return Err(error);
                },
            }
            seeded = seeded + 1;
        }
        let mut workers: Vec<Worker> = Vec::new();
        let mut started: usize = 0;
        while started < opts.threads
            invariant
                started <= opts.threads,
                old(self).workers() + opts.threads <= usize::MAX,
                self.handlers() == old(self).handlers(),
                self.workers() == old(self).workers() + started,
                self.is_closed() == old(self).is_closed(),
                self.follows_redirects() == old(self).follows_redirects(),
                self.extends(old(self)),
                self.grown(old(self)) == opts.urls@.len(),
                self.pending() == old(self).pending() + opts.urls@.len(),
                forall|i: int|
                    0 <= i < opts.urls@.len() ==> is_visit_of(
                        #[trigger] self.enqueued()[old(self).enqueued().len() + i],
                        opts.urls@[i]@,
                    ),
                workers@.len() == started,
                forall|k: int|
                    0 <= k < workers@.len() ==> (#[trigger] workers@[k]).id == old(self).workers()
                        + k,
            decreases opts.threads - started,
        {
            workers.push(self.start_worker());
            started = started + 1;
        }
        Ok(workers)
    }

    /// Takes out the enqueued work, oldest first, to pass it on to the
    /// workers. It stays counted as outstanding.
    pub fn take_enqueued(&mut self) -> (items: Vec<WorkInput>)
        ensures
            final(self).handlers() == old(self).handlers(),
            items@ == old(self).enqueued(),
            final(self).enqueued() == Seq::<WorkInput>::empty(),
            final(self).pending() == old(self).pending(),
            final(self).same_setup(old(self)),
    {
        self.workinput_tx.drain()
    }

    /// Takes over the work that a handler enqueued through `response`: all
    /// of it, in its order, behind what is enqueued already.
    ///
    /// Fails, taking nothing, where not all of it can be enqueued; the error
    /// names the URL of the response.
    pub fn absorb(&mut self, response: Response) -> (result: Result<(), CrablerError>)
        ensures
            final(self).handlers() == old(self).handlers(),
            final(self).same_setup(old(self)),
            old(self).accepts(response.enqueued().len()) ==> {
                &&& result is Ok
                &&& final(self).enqueued() == old(self).enqueued() + response.enqueued()
                &&& final(self).pending() == old(self).pending() + response.enqueued().len()
            },
            !old(self).accepts(response.enqueued().len()) ==> {
                &&& result == Err::<(), CrablerError>(CrablerError::AsyncSendError(response.url))
                &&& final(self).enqueued() == old(self).enqueued()
                &&& final(self).pending() == old(self).pending()
            },
    {
        let Response { url, workinput_tx, .. } = response;
        if self.workinput_tx.send_all(workinput_tx.into_queued()) {
            Ok(())
        } else {
            Err(CrablerError::AsyncSendError(url))
        }
    }

    /// Retires the unit of work whose result has been reported, and tells
    /// whether the run is complete: nothing is outstanding any more.
    pub fn retire(&mut self) -> (complete: bool)
        requires
            old(self).pending() > 0,
        ensures
            final(self).handlers() == old(self).handlers(),
            final(self).pending() == old(self).pending() - 1,
            complete == (final(self).pending() == 0),
            final(self).enqueued() == old(self).enqueued(),
            final(self).same_setup(old(self)),
    {
        self.workinput_tx.retire() == 0
    }

    /// The selectors that the handlers are bound to, in their order.
    fn selectors(&self) -> Vec<String> {
        let bound = self.scraper.all_html_selectors();
        owned_selectors(&bound)
    }

    /// Handles one result of the workers: invokes the handlers that
    /// [`dispatch_plan`] lays out, in that order, each with a response of its
    /// own; takes over the work that they enqueued; then retires the unit of
    /// work that the result stands for. Tells whether the run is complete.
    ///
    /// A handler's failure, or a selector that cannot be dispatched, ends the
    /// handling at once: the error is returned and the unit of work is not
    /// retired.
    pub fn process_output(&mut self, output: WorkOutput) -> (result: Result<bool, CrablerError>)
        requires
            old(self).pending() > 0,
        ensures
            final(self).same_setup(old(self)),
            final(self).extends(old(self)),
            match result {
                Ok(complete) => {
                    &&& final(self).pending() == count_after_result(
                        old(self).pending() as int,
                        final(self).grown(old(self)),
                    )
                    &&& complete == (final(self).pending() == 0)
                },
                Err(_) => final(self).pending() == old(self).pending() + final(self).grown(
                    old(self),
                ),
            },
            output is Exit ==> result is Ok && final(self).enqueued() == old(self).enqueued(),
    {
        let selectors = match &output {
            WorkOutput::Markup { .. } => self.selectors(),
            _ => Vec::new(),
        };
        let DispatchPlan { dispatches, document: _page } = match dispatch_plan(&output, &selectors) {
            Ok(plan) => plan,
            Err(error) => {
                return Err(error);
            },
        };
        for dispatch in iter: dispatches
            invariant
                iter.seq() == plan_of(output, selectors@),
                self.same_setup(old(self)),
                self.extends(old(self)),
                self.pending() == old(self).pending() + self.grown(old(self)),
                output is Exit ==> self.enqueued() == old(self).enqueued(),
        {
            let mut response = output.response(self.workinput_tx.fork());
            let outcome = match dispatch {
                Dispatch::Response => self.scraper.dispatch_on_response(&mut response),
                Dispatch::Html(HtmlDispatch { selector, element }) => {
                    self.scraper.dispatch_on_html(selector.as_str(), &mut response, element)
                },
            };
            let taken = self.absorb(response);
            match taken {
                Ok(_) => {},
                Err(error) => {
                    return Err(error);
                },
            }
            match outcome {
                Ok(_) => {},
                Err(error) => {
                    return Err(error);
                },
            }
        }
        Ok(self.retire())
    }

    /// What it means that no more results will come: nothing, when no work
    /// is outstanding or the run has been shut down; a failure otherwise.
    pub fn results_closed(&self) -> (result: Result<(), CrablerError>)
        ensures
            if self.pending() == 0 || self.is_closed() {
                result is Ok
            } else {
                result == Err::<(), CrablerError>(CrablerError::AsyncRecvError)
            },
    {
        if self.outstanding() == 0 || self.workinput_tx.closed() {
            Ok(())
        } else {
            Err(CrablerError::AsyncRecvError)
        }
    }

    /// Runs the loop on the results that arrive, in their order, until the
    /// run is complete, a handler fails, or no more results come.
    ///
    /// It ends well when nothing is outstanding, at once where nothing was
    /// to begin with. Results that arrive after that are dropped. Where the
    /// results run out while work is outstanding, that is an error unless
    /// the run has been shut down.
    pub fn event_loop(&mut self, outputs: Vec<WorkOutput>) -> (result: Result<(), CrablerError>)
        ensures
            final(self).same_setup(old(self)),
            final(self).extends(old(self)),
            final(self).pending() <= old(self).pending() + final(self).grown(old(self)),
            final(self).pending() + outputs@.len() >= old(self).pending() + final(self).grown(
                old(self),
            ),
            result is Ok ==> final(self).pending() == 0 || final(self).is_closed(),
            old(self).pending() == 0 ==> result is Ok && final(self).enqueued() == old(
                self,
            ).enqueued(),
            all_stops(outputs@) ==> {
                &&& final(self).enqueued() == old(self).enqueued()
                &&& final(self).pending() == if old(self).pending() >= outputs@.len() {
                    old(self).pending() - outputs@.len()
                } else {
                    0
                }
                &&& if old(self).pending() <= outputs@.len() || old(self).is_closed() {
                    result is Ok
                } else {
                    result == Err::<(), CrablerError>(CrablerError::AsyncRecvError)
                }
            },
    {
        for output in iter: outputs
            invariant
                iter.seq() == outputs@,
                all_stops(outputs@) ==> {
                    &&& self.enqueued() == old(self).enqueued()
                    &&& self.pending() + iter.index() == old(self).pending()
                },
                self.same_setup(old(self)),
                self.extends(old(self)),
                self.pending() <= old(self).pending() + self.grown(old(self)),
                self.pending() + iter.index() >= old(self).pending() + self.grown(old(self)),
                iter.index() <= outputs@.len(),
                iter.index() == 0 ==> self.pending() == old(self).pending() && self.enqueued()
                    == old(self).enqueued(),
                iter.index() > 0 ==> old(self).pending() > 0,
        {
            if self.outstanding() == 0 {
                return Ok(());
            }
            let handled = self.process_output(output);
            match handled {
                Ok(complete) => {
                    if complete {
                        return Ok(());
                    }
                },
                Err(error) => {
                    return Err(error);
                },
            }
        }
        self.results_closed()
    }

    /// Shuts the run down: enqueues one stop sentinel for each worker, which
    /// is not counted as work, and takes no work from then on. A second
    /// shutdown does nothing.
    pub fn shutdown(&mut self)
        ensures
            final(self).handlers() == old(self).handlers(),
            final(self).is_closed(),
            final(self).pending() == old(self).pending(),
            final(self).workers() == old(self).workers(),
            final(self).follows_redirects() == old(self).follows_redirects(),
            final(self).enqueued() == if old(self).is_closed() {
                old(self).enqueued()
            } else {
                old(self).enqueued() + exits(old(self).workers())
            },
    {
        if self.workinput_tx.closed() {
            return ;
        }
        let mut sent: usize = 0;
        while sent < self.workers
            invariant
                sent <= self.workers,
                self.scraper == old(self).scraper,
                self.workers == old(self).workers,
                self.follow_redirects == old(self).follow_redirects,
                !self.is_closed(),
                self.pending() == old(self).pending(),
                self.enqueued() == old(self).enqueued() + exits(sent as nat),
            decreases self.workers - sent,
        {
            self.workinput_tx.send_uncounted(WorkInput::Exit);
            sent = sent + 1;
        }
        self.workinput_tx.close();
    }

    /// Runs the loop on the results that arrive, then shuts the run down,
    /// however the loop ended.
    pub fn run(&mut self, outputs: Vec<WorkOutput>) -> (result: Result<(), CrablerError>)
        ensures
            final(self).is_closed(),
            final(self).workers() == old(self).workers(),
            final(self).follows_redirects() == old(self).follows_redirects(),
            final(self).extends(old(self)),
            !old(self).is_closed() ==> {
                &&& final(self).grown(old(self)) >= old(self).workers()
                &&& final(self).enqueued().skip(
                    final(self).enqueued().len() - old(self).workers(),
                ) == exits(old(self).workers())
            },
            final(self).pending() + outputs@.len() >= old(self).pending(),
            result is Ok ==> final(self).pending() == 0 || old(self).is_closed(),
            old(self).pending() == 0 || all_stops(outputs@) ==> {
                &&& final(self).pending() == if old(self).pending() >= outputs@.len() {
                    old(self).pending() - outputs@.len()
                } else {
                    0
                }
                &&& final(self).enqueued() == if old(self).is_closed() {
                    old(self).enqueued()
                } else {
                    old(self).enqueued() + exits(old(self).workers())
                }
                &&& if old(self).pending() <= outputs@.len() || old(self).is_closed() {
                    result is Ok
                } else {
                    result == Err::<(), CrablerError>(CrablerError::AsyncRecvError)
                }
            },
    {
        let result = self.event_loop(outputs);
        self.shutdown();
        result
    }
}

} // verus!
