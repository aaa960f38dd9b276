//! The messages that pass between the event loop and the workers.

use crate::sender::WorkSender;
use crate::errors::CrablerError;
use crate::response::Response;
use vstd::prelude::*;

verus! {

/// One unit of work for a worker.
#[derive(Clone, Debug, PartialEq, Eq)]
pub enum WorkInput {
    /// Fetch the page at this URL.
    Navigate(String),
    /// Fetch what is at `url` and write it to the file `destination`.
    Download { url: String, destination: String },
    /// Stop. One is sent to each worker when the run shuts down.
    Exit,
}

impl WorkInput {
    /// The URL that the item asks for; `Exit` asks for none.
    pub open spec fn url(&self) -> Seq<char> {
        match self {
            WorkInput::Navigate(url) => url@,
            WorkInput::Download { url, .. } => url@,
            WorkInput::Exit => Seq::empty(),
        }
    }
}

/// What a fetch of a page brought back.
#[derive(Clone, Debug, PartialEq, Eq)]
pub struct MarkupPayload {
    /// The URL that answered, after any redirects.
    pub url: String,
    /// The body of the answer.
    pub text: String,
    /// The status code of the answer.
    pub status: u16,
}

impl MarkupPayload {
    /// What a fetch brought back: `text` with status `status` from `url`.
    pub fn new(status: u16, url: String, text: String) -> (payload: Self)
        ensures
            payload == (MarkupPayload { url, text, status }),
    {
        MarkupPayload { status, url, text }
    }
}

/// What became of one unit of work.
#[derive(Clone, Debug, PartialEq, Eq)]
pub enum WorkOutput {
    /// A page was fetched.
    Markup { url: String, text: String, status: u16 },
    /// A file was fetched and written.
    Download { url: String, destination: String },
    /// The URL had been claimed before; nothing was fetched.
    Noop(String),
    /// The fetch, or the write, failed.
    Error(String, CrablerError),
    /// A worker stopped.
    Exit,
}

/// Status reported for a file that was fetched and written.
pub const STATUS_DOWNLOADED: u16 = 200;

/// Status reported for a URL that had been claimed before.
pub const STATUS_ALREADY_SEEN: u16 = 304;

/// Status reported for a unit of work that failed.
pub const STATUS_FAILED: u16 = 500;

impl WorkOutput {
    /// Whether the response handler is invoked for this result: for every
    /// result but the echo of a worker's stop.
    pub open spec fn is_reported(&self) -> bool {
        !(self is Exit)
    }

    /// The URL that the response handler is told.
    pub open spec fn url(&self) -> String
        recommends
            self.is_reported(),
    {
        match self {
            WorkOutput::Markup { url, .. } => *url,
            WorkOutput::Download { url, .. } => *url,
            WorkOutput::Noop(url) => *url,
            WorkOutput::Error(url, _) => *url,
            WorkOutput::Exit => arbitrary(),
        }
    }

    /// The status that the response handler is told.
    pub open spec fn status(&self) -> u16 {
        match self {
            WorkOutput::Markup { status, .. } => *status,
            WorkOutput::Download { .. } => STATUS_DOWNLOADED,
            WorkOutput::Noop(_) => STATUS_ALREADY_SEEN,
            WorkOutput::Error(_, _) => STATUS_FAILED,
            WorkOutput::Exit => STATUS_FAILED,
        }
    }

    /// The file that the response handler is told: that of a download.
    pub open spec fn destination(&self) -> Option<String> {
        match self {
            WorkOutput::Download { destination, .. } => Some(*destination),
            _ => None,
        }
    }

    /// The result of fetching the page at `url`: the page under the URL that
    /// answered, or the failure under the URL that was asked for.
    pub open spec fn of_response(response: Result<MarkupPayload, CrablerError>, url: String) -> Self {
        match response {
            Ok(page) => WorkOutput::Markup { url: page.url, text: page.text, status: page.status },
            Err(cause) => WorkOutput::Error(url, cause),
        }
    }

    /// The result of fetching `url` into the file `destination`: the
    /// download, or the failure of the fetch or of the write.
    pub open spec fn of_download(
        written: Result<(), CrablerError>,
        url: String,
        destination: String,
    ) -> Self {
        match written {
            Ok(_) => WorkOutput::Download { url, destination },
            Err(cause) => WorkOutput::Error(url, cause),
        }
    }

    /// The result of fetching the page at `url`, given how the fetch went.
    pub fn try_from_response(
        response: Result<MarkupPayload, CrablerError>,
        url: String,
    ) -> (output: Self)
        ensures
            output == Self::of_response(response, url),
    {
        match response {
            Ok(page) => WorkOutput::Markup { url: page.url, text: page.text, status: page.status },
            Err(cause) => WorkOutput::Error(url, cause),
        }
    }

    /// The result of fetching `url` into the file `destination`, given how
    /// the fetch and the write went.
    pub fn try_from_download(
        written: Result<(), CrablerError>,
        url: String,
        destination: String,
    ) -> (output: Self)
        ensures
            output == Self::of_download(written, url, destination),
    {
        match written {
            Ok(_) => WorkOutput::Download { url, destination },
            Err(cause) => WorkOutput::Error(url, cause),
        }
    }

    /// What the handlers are told of this result; they enqueue further work
    /// through `workinput_tx`. The echo of a worker's stop is told to no
    /// handler.
    pub fn response(&self, workinput_tx: WorkSender) -> (response: Response)
        requires
            self.is_reported(),
        ensures
            response == (Response {
                url: self.url(),
                status: self.status(),
                download_destination: self.destination(),
                workinput_tx,
            }),
    {
        match self {
            WorkOutput::Markup { url, status, .. } => Response::new(
                *status,
                url.clone(),
                None,
                workinput_tx,
            ),
            WorkOutput::Download { url, destination } => Response::new(
                STATUS_DOWNLOADED,
                url.clone(),
                Some(destination.clone()),
                workinput_tx,
            ),
            WorkOutput::Noop(url) => Response::new(
                STATUS_ALREADY_SEEN,
                url.clone(),
                None,
                workinput_tx,
            ),
            WorkOutput::Error(url, _) => Response::new(STATUS_FAILED, url.clone(), None, workinput_tx),
            WorkOutput::Exit => Response::new(STATUS_FAILED, String::new(), None, workinput_tx),
        }
    }
}

} // verus!
