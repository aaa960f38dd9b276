//! Configuration of one crawl run.

use vstd::prelude::*;

verus! {

/// Seed URLs, in the order in which they are enqueued.
pub type Urls = Vec<String>;

/// Number of fetch workers.
pub type Threads = usize;

/// Configuration of one crawl run.
#[derive(Clone, Debug)]
pub struct Opts {
    pub urls: Urls,
    pub threads: Threads,
    pub follow_redirects: bool,
}

impl Opts {
    /// No seed, one worker, redirects followed.
    pub fn new() -> (opts: Self)
        ensures
            opts.urls@ == Seq::<String>::empty(),
            opts.threads == 1,
            opts.follow_redirects,
    {
        Opts { urls: Vec::new(), threads: 1, follow_redirects: true }
    }

    /// Replaces the seed URLs, keeping their order.
    pub fn with_urls(self, input: Vec<&str>) -> (opts: Self)
        ensures
            opts.urls@.len() == input@.len(),
            forall|i: int| 0 <= i < input@.len() ==> (#[trigger] opts.urls@[i])@ == input@[i]@,
            opts.threads == self.threads,
            opts.follow_redirects == self.follow_redirects,
    {
        let mut urls: Vec<String> = Vec::new();
        let mut i: usize = 0;
        while i < input.len()
            invariant
                i <= input@.len(),
                urls@.len() == i,
                forall|j: int| 0 <= j < i ==> (#[trigger] urls@[j])@ == input@[j]@,
            decreases input@.len() - i,
        {
            urls.push(input[i].to_owned());
            i = i + 1;
        }
        let mut new = self;
        new.urls = urls;
        new
    }

    /// Replaces the worker count.
    pub fn with_threads(self, input: usize) -> (opts: Self)
        ensures
            opts.threads == input,
            opts.urls == self.urls,
            opts.follow_redirects == self.follow_redirects,
    {
        let mut new = self;
        new.threads = input;
        new
    }

    /// Replaces the redirect-following flag.
    pub fn with_follow_redirects(self, input: bool) -> (opts: Self)
        ensures
            opts.follow_redirects == input,
            opts.urls == self.urls,
            opts.threads == self.threads,
    {
        let mut new = self;
        new.follow_redirects = input;
        new
    }
}

} // verus!
