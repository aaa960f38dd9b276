//! What a handler is told about a result, and how it asks for more work.

use crate::errors::CrablerError;
use crate::sender::WorkSender;
use crate::work::WorkInput;
use vstd::prelude::*;

verus! {

/// One result as a handler sees it, with a handle to enqueue further work.
///
/// Every enqueue is counted as outstanding at once, before the call returns,
/// and is kept in order until the event loop passes it on to the workers.
#[derive(Debug)]
pub struct Response {
    pub url: String,
    pub status: u16,
    pub download_destination: Option<String>,
    pub workinput_tx: WorkSender,
}

impl Response {
    /// The work enqueued through this response, oldest first.
    pub open spec fn enqueued(&self) -> Seq<WorkInput> {
        self.workinput_tx.queued()
    }

    /// The count of outstanding work as this response knows it.
    pub open spec fn pending(&self) -> nat {
        self.workinput_tx.pending()
    }

    /// Whether one more item can be enqueued through this response.
    pub open spec fn accepts(&self) -> bool {
        self.workinput_tx.accepts(1)
    }

    /// A response that enqueues through `workinput_tx`.
    pub fn new(
        status: u16,
        url: String,
        download_destination: Option<String>,
        workinput_tx: WorkSender,
    ) -> (response: Self)
        ensures
            response == (Response { url, status, download_destination, workinput_tx }),
    {
        Response { status, url, download_destination, workinput_tx }
    }

    /// Schedules a visit of `url` by one of the workers.
    ///
    /// Fails, with nothing enqueued, only where the handle takes no more
    /// work; the error names the URL.
    pub fn navigate(&mut self, url: String) -> (result: Result<(), CrablerError>)
        ensures
            final(self).url == old(self).url,
            final(self).status == old(self).status,
            final(self).download_destination == old(self).download_destination,
            final(self).workinput_tx.is_closed() == old(self).workinput_tx.is_closed(),
            old(self).accepts() ==> {
                &&& result is Ok
                &&& final(self).enqueued() == old(self).enqueued().push(WorkInput::Navigate(url))
                &&& final(self).pending() == old(self).pending() + 1
            },
            !old(self).accepts() ==> {
                &&& result == Err::<(), CrablerError>(CrablerError::AsyncSendError(url))
                &&& final(self).enqueued() == old(self).enqueued()
                &&& final(self).pending() == old(self).pending()
            },
    {
        if self.workinput_tx.ready() {
            let _ = self.workinput_tx.send(WorkInput::Navigate(url));
            Ok(())
        } else {
            Err(CrablerError::AsyncSendError(url))
        }
    }

    /// Schedules a download of `url` into the file `destination` by one of
    /// the workers.
    ///
    /// Fails, with nothing enqueued, only where the handle takes no more
    /// work; the error names the URL.
    pub fn download_file(&mut self, url: String, destination: String) -> (result: Result<
        (),
        CrablerError,
    >)
        ensures
            final(self).url == old(self).url,
            final(self).status == old(self).status,
            final(self).download_destination == old(self).download_destination,
            final(self).workinput_tx.is_closed() == old(self).workinput_tx.is_closed(),
            old(self).accepts() ==> {
                &&& result is Ok
                &&& final(self).enqueued() == old(self).enqueued().push(
                    WorkInput::Download { url, destination },
                )
                &&& final(self).pending() == old(self).pending() + 1
            },
            !old(self).accepts() ==> {
                &&& result == Err::<(), CrablerError>(CrablerError::AsyncSendError(url))
                &&& final(self).enqueued() == old(self).enqueued()
                &&& final(self).pending() == old(self).pending()
            },
    {
        if self.workinput_tx.ready() {
            let _ = self.workinput_tx.send(WorkInput::Download { url, destination });
            Ok(())
        } else {
            Err(CrablerError::AsyncSendError(url))
        }
    }
}

} // verus!
