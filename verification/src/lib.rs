//! Coordination core of a concurrent web crawler.
//!
//! A crawl fetches pages, reports them to handlers, and fetches what the
//! handlers ask for in turn, until no work is outstanding. This library holds
//! the rules of that coordination: which URL a worker may fetch, in which
//! order handlers are invoked, how outstanding work is counted, and when a
//! run is complete. Fetching, writing files and passing messages between
//! tasks are left to whoever drives it.

pub mod counter;
pub mod crabler;
pub mod crawl;
pub mod dispatch;
pub mod errors;
pub mod html;
pub mod opts;
pub mod response;
pub mod scraper;
pub mod sender;
pub mod visited;
pub mod work;
pub mod worker;

pub use counter::PendingCounter;
pub use crabler::Crabler;
pub use dispatch::{dispatch_plan, Dispatch, DispatchPlan};
pub use errors::CrablerError;
pub use html::{
    html_dispatches, owned_selectors, pair_matches, selector_supported, HtmlDispatch,
};
pub use opts::Opts;
pub use response::Response;
pub use scraper::WebScraper;
pub use sender::WorkSender;
pub use visited::VisitedSet;
pub use work::{MarkupPayload, WorkInput, WorkOutput};
pub use worker::{Worker, WorkerStep};
