//! Which handlers a result is reported to, and in which order.

use crate::errors::CrablerError;
use crate::html::{
    dispatch_order, document_markup, first_unsupported, html_dispatches, parse_document,
    selector_text_parses, HtmlDispatch,
};
use crate::work::WorkOutput;
use vstd::prelude::*;

verus! {

/// One invocation of a handler.
pub enum Dispatch {
    /// The response handler is invoked.
    Response,
    /// The handler of a selector is invoked on an element.
    Html(HtmlDispatch),
}

/// The invocations for one result, in their order, with the page that the
/// elements among them belong to.
pub struct DispatchPlan {
    /// The invocations, first to last.
    pub dispatches: Vec<Dispatch>,
    /// The parsed page of a fetch; it is kept for as long as its elements
    /// are in use.
    pub document: Option<crabquery::Document>,
}

/// The invocations for `output` when `selectors` are bound, in their order.
///
/// The response handler comes first, once. For a fetched page the handlers
/// of the selectors follow: selector by selector in the order in which they
/// were bound, and for each selector element by element in the order of the
/// page. The echo of a worker's stop is reported to no handler.
pub open spec fn plan_of(output: WorkOutput, selectors: Seq<String>) -> Seq<Dispatch> {
    match output {
        WorkOutput::Exit => Seq::empty(),
        WorkOutput::Markup { text, .. } => seq![Dispatch::Response] + dispatch_order(
            text@,
            selectors,
        ).map_values(|dispatch: HtmlDispatch| Dispatch::Html(dispatch)),
        _ => seq![Dispatch::Response],
    }
}

/// Wraps the invocations of the selectors' handlers, behind that of the
/// response handler.
fn behind_response(html: Vec<HtmlDispatch>) -> (dispatches: Vec<Dispatch>)
    ensures
        dispatches@ == seq![Dispatch::Response] + html@.map_values(
            |dispatch: HtmlDispatch| Dispatch::Html(dispatch),
        ),
{
    let mut dispatches: Vec<Dispatch> = Vec::new();
    dispatches.push(Dispatch::Response);
    for dispatch in iter: html
        invariant
            iter.seq() == html@,
            dispatches@ == seq![Dispatch::Response] + html@.take(iter.index()).map_values(
                |dispatch: HtmlDispatch| Dispatch::Html(dispatch),
            ),
    {
        dispatches.push(Dispatch::Html(dispatch));
    }
    dispatches
}

/// Lays out the invocations for `output` when `selectors` are bound.
///
/// Fails only for a fetched page, on the first selector that cannot be
/// handed to the matcher, and names it.
pub fn dispatch_plan(output: &WorkOutput, selectors: &Vec<String>) -> (result: Result<
    DispatchPlan,
    CrablerError,
>)
    ensures
        match result {
            Ok(plan) => {
                &&& plan.dispatches@ == plan_of(*output, selectors@)
                &&& match *output {
                    WorkOutput::Markup { text, .. } => {
                        &&& plan.document matches Some(document)
                        &&& document_markup(document) == text@
                        &&& forall|j: int|
                            0 <= j < selectors@.len() ==> selector_text_parses(
                                #[trigger] selectors@[j]@,
                            )
                    },
                    _ => plan.document is None,
                }
            },
            Err(error) => {
                &&& output is Markup
                &&& exists|index: int|
                    {
                        &&& #[trigger] first_unsupported(selectors@, index)
                        &&& error == CrablerError::Selector(selectors@[index])
                    }
            },
        },
{
    match output {
        WorkOutput::Exit => Ok(DispatchPlan { dispatches: Vec::new(), document: None }),
        WorkOutput::Markup { text, .. } => {
            let document = parse_document(text.as_str());
            match html_dispatches(&document, selectors) {
                Ok(html) => Ok(
                    DispatchPlan { dispatches: behind_response(html), document: Some(document) },
                ),
                Err(error) => Err(error),
            }
        },
        _ => {
            let mut dispatches: Vec<Dispatch> = Vec::new();
            dispatches.push(Dispatch::Response);
            Ok(DispatchPlan { dispatches, document: None })
        },
    }
}

} // verus!
