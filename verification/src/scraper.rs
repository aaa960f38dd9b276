//! The handlers that a crawl reports to.

use crate::errors::CrablerError;
use crate::response::Response;
use vstd::prelude::*;

verus! {

/// The handlers of a crawl: one for every result, and one for each selector
/// that is bound.
///
/// The event loop invokes the handlers one at a time. A handler asks for more
/// work through the response it is given. A handler that fails ends the run.
pub trait WebScraper {
    /// Handles one element that `selector` matched in a fetched page.
    fn dispatch_on_html(
        &mut self,
        selector: &str,
        response: &mut Response,
        element: crabquery::Element,
    ) -> Result<(), CrablerError>;

    /// Handles one result.
    fn dispatch_on_response(&mut self, response: &mut Response) -> Result<(), CrablerError>;

    /// The selectors that are bound, in the order in which they were bound.
    fn all_html_selectors(&self) -> Vec<&str>;
}

} // verus!
