use crabler::{
    Crabler, CrablerError, MarkupPayload, Opts, Response, VisitedSet, WebScraper, WorkInput,
    WorkOutput, Worker, WorkerStep,
};
use crabquery::Element;

/// What a handler was invoked with.
#[derive(Debug, Clone, PartialEq, Eq)]
enum Call {
    Response { url: String, status: u16, destination: Option<String> },
    Html { selector: String, url: String, status: u16, href: Option<String>, text: Option<String> },
}

/// Handlers that write down how they were invoked.
struct Recorder {
    selectors: Vec<&'static str>,
    calls: Vec<Call>,
    /// Whether the handler of a link schedules a visit of it.
    follow_links: bool,
    /// URLs whose response schedules a download into `out.bin`.
    download_on: Vec<&'static str>,
    /// URLs whose response schedules a visit of the same URL again.
    revisit_on: Vec<&'static str>,
    /// Status at which the response handler fails.
    fail_on_status: Option<u16>,
    pending_seen: Vec<usize>,
}

impl Recorder {
    fn new(selectors: Vec<&'static str>) -> Self {
        Recorder {
            selectors,
            calls: vec![],
            follow_links: false,
            download_on: vec![],
            revisit_on: vec![],
            fail_on_status: None,
            pending_seen: vec![],
        }
    }
}

impl WebScraper for Recorder {
    fn dispatch_on_html(
        &mut self,
        selector: &str,
        response: &mut Response,
        element: Element,
    ) -> Result<(), CrablerError> {
        if !self.selectors.contains(&selector) {
            return Err(CrablerError::Selector(selector.to_string()));
        }
        let href = element.attr("href");
        self.calls.push(Call::Html {
            selector: selector.to_string(),
            url: response.url.clone(),
            status: response.status,
            href: href.clone(),
            text: element.text(),
        });
        if self.follow_links {
            if let Some(href) = href {
                response.navigate(href)?;
            }
        }
        Ok(())
    }

    fn dispatch_on_response(&mut self, response: &mut Response) -> Result<(), CrablerError> {
        self.calls.push(Call::Response {
            url: response.url.clone(),
            status: response.status,
            destination: response.download_destination.clone(),
        });
        if response.status == 200 && self.download_on.contains(&response.url.as_str()) {
            let before = response.workinput_tx.outstanding();
            response.download_file(format!("{}file", response.url), "out.bin".to_string())?;
            self.pending_seen.push(before);
            self.pending_seen.push(response.workinput_tx.outstanding());
        }
        if self.revisit_on.contains(&response.url.as_str()) && response.status != 304 {
            response.navigate(response.url.clone())?;
        }
        if self.fail_on_status == Some(response.status) {
            return Err(CrablerError::Io("handler failed".to_string()));
        }
        Ok(())
    }

    fn all_html_selectors(&self) -> Vec<&str> {
        self.selectors.clone()
    }
}

fn on_response(url: &str, status: u16) -> Call {
    Call::Response { url: url.to_string(), status, destination: None }
}

fn on_link(url: &str, href: &str, text: &str) -> Call {
    Call::Html {
        selector: "a[href]".to_string(),
        url: url.to_string(),
        status: 200,
        href: Some(href.to_string()),
        text: Some(text.to_string()),
    }
}

fn page(url: &str, text: &str) -> WorkOutput {
    WorkOutput::Markup { url: url.to_string(), text: text.to_string(), status: 200 }
}

/// The pages of a small site; every other URL fails.
fn site(url: &str) -> Result<MarkupPayload, CrablerError> {
    let body = match url {
        "https://example.test/" => {
            "<a href=\"https://example.test/a\">A</a><a href=\"https://example.test/b\">B</a>"
        }
        "https://example.test/a" => "<a href=\"https://example.test/b\">B</a>",
        "https://example.test/b" => {
            "<a href=\"https://example.test/\">home</a><a href=\"https://example.test/a\">A</a>"
        }
        "https://example.test/leaf" => "<p>no links</p>",
        _ => return Err(CrablerError::SurfError(404, format!("no page at {}", url))),
    };
    Ok(MarkupPayload::new(200, url.to_string(), body.to_string()))
}

/// Drives a run with one worker to its end: passes the enqueued work to the
/// worker, fetches from `site`, and hands each result to the event loop.
/// Returns the count of outstanding work before and after each result, and
/// the URLs that were fetched.
fn drive(
    crabler: &mut Crabler<Recorder>,
    visited: &mut VisitedSet,
    worker: &Worker,
) -> Result<(Vec<usize>, Vec<String>), CrablerError> {
    let mut counts = vec![crabler.outstanding()];
    let mut fetched = vec![];
    loop {
        let items = crabler.take_enqueued();
        if items.is_empty() {
            return Ok((counts, fetched));
        }
        for item in items {
            let output = match worker.process_message(visited, item) {
                WorkerStep::Fetch { url } => {
                    fetched.push(url.clone());
                    WorkOutput::try_from_response(site(&url), url)
                }
                WorkerStep::FetchFile { url, destination } => {
                    fetched.push(url.clone());
                    WorkOutput::try_from_download(Ok(()), url, destination)
                }
                WorkerStep::Emit(output) => output,
                WorkerStep::Stop => WorkOutput::Exit,
            };
            assert!(crabler.outstanding() > 0);
            let complete = crabler.process_output(output)?;
            counts.push(crabler.outstanding());
            assert_eq!(complete, crabler.outstanding() == 0);
        }
    }
}

#[test]
fn handlers_are_invoked_in_dispatch_order() {
    let text = "<div><b>x</b><a href=\"/1\">first</a></div><a href=\"/2\">second</a><b>y</b>";
    let mut recorder = Recorder::new(vec!["a[href]", "div > b"]);
    recorder.follow_links = false;
    let mut crabler = Crabler::new(recorder, &Opts::new());
    crabler.navigate("https://example.test/").unwrap();
    assert_eq!(crabler.process_output(page("https://example.test/", text)), Ok(true));
    assert_eq!(
        crabler.scraper().calls,
        vec![
            on_response("https://example.test/", 200),
            on_link("https://example.test/", "/1", "first"),
            on_link("https://example.test/", "/2", "second"),
            Call::Html {
                selector: "div > b".to_string(),
                url: "https://example.test/".to_string(),
                status: 200,
                href: None,
                text: Some("x".to_string()),
            },
        ]
    );
}

#[test]
fn single_page_run_counts_one_then_zero() {
    let opts = Opts::new().with_urls(vec!["https://example.test/"]);
    let mut crabler = Crabler::new(Recorder::new(vec!["a[href]"]), &opts);
    let workers = crabler.prepare(&opts).unwrap();
    assert_eq!(workers.len(), 1);
    let mut visited = VisitedSet::new();

    let (counts, fetched) = drive(&mut crabler, &mut visited, &workers[0]).unwrap();

    assert_eq!(counts, vec![1, 0]);
    assert_eq!(fetched, vec!["https://example.test/".to_string()]);
    assert_eq!(
        crabler.scraper().calls,
        vec![
            on_response("https://example.test/", 200),
            on_link("https://example.test/", "https://example.test/a", "A"),
            on_link("https://example.test/", "https://example.test/b", "B"),
        ]
    );
    assert_eq!(crabler.results_closed(), Ok(()));
}

#[test]
fn failed_fetch_is_reported_with_status_500() {
    let opts = Opts::new().with_urls(vec!["https://example.test/missing"]);
    let mut crabler = Crabler::new(Recorder::new(vec!["a[href]"]), &opts);
    let workers = crabler.prepare(&opts).unwrap();
    let mut visited = VisitedSet::new();

    let item = crabler.take_enqueued().pop().unwrap();
    let step = workers[0].process_message(&mut visited, item);
    assert_eq!(step, WorkerStep::Fetch { url: "https://example.test/missing".to_string() });
    let output = WorkOutput::try_from_response(
        site("https://example.test/missing"),
        "https://example.test/missing".to_string(),
    );
    assert_eq!(
        output,
        WorkOutput::Error(
            "https://example.test/missing".to_string(),
            CrablerError::SurfError(404, "no page at https://example.test/missing".to_string())
        )
    );

    assert_eq!(crabler.outstanding(), 1);
    assert_eq!(crabler.process_output(output), Ok(true));
    assert_eq!(crabler.outstanding(), 0);
    assert_eq!(crabler.scraper().calls, vec![on_response("https://example.test/missing", 500)]);
}

#[test]
fn download_is_counted_at_call_time_and_reported_with_its_destination() {
    let opts = Opts::new().with_urls(vec!["https://example.test/leaf"]);
    let mut recorder = Recorder::new(vec![]);
    recorder.download_on = vec!["https://example.test/leaf"];
    let mut crabler = Crabler::new(recorder, &opts);
    let workers = crabler.prepare(&opts).unwrap();
    let mut visited = VisitedSet::new();

    let (counts, fetched) = drive(&mut crabler, &mut visited, &workers[0]).unwrap();

    assert_eq!(crabler.scraper().pending_seen, vec![1, 2]);
    assert_eq!(counts, vec![1, 1, 0]);
    assert_eq!(
        fetched,
        vec!["https://example.test/leaf".to_string(), "https://example.test/leaffile".to_string()]
    );
    assert_eq!(
        crabler.scraper().calls,
        vec![
            on_response("https://example.test/leaf", 200),
            Call::Response {
                url: "https://example.test/leaffile".to_string(),
                status: 200,
                destination: Some("out.bin".to_string()),
            },
        ]
    );
}

#[test]
fn revisit_fetches_nothing_and_is_retired_once() {
    let opts = Opts::new().with_urls(vec!["https://example.test/leaf"]);
    let mut recorder = Recorder::new(vec![]);
    recorder.revisit_on = vec!["https://example.test/leaf"];
    let mut crabler = Crabler::new(recorder, &opts);
    let workers = crabler.prepare(&opts).unwrap();
    let mut visited = VisitedSet::new();

    let (counts, fetched) = drive(&mut crabler, &mut visited, &workers[0]).unwrap();

    assert_eq!(fetched, vec!["https://example.test/leaf".to_string()]);
    assert_eq!(counts, vec![1, 1, 0]);
    assert_eq!(
        crabler.scraper().calls,
        vec![on_response("https://example.test/leaf", 200), on_response("https://example.test/leaf", 304)]
    );
}

#[test]
fn crawl_of_a_graph_with_cycles_ends_with_nothing_outstanding() {
    let opts = Opts::new().with_urls(vec!["https://example.test/", "https://example.test/"]);
    let mut recorder = Recorder::new(vec!["a[href]"]);
    recorder.follow_links = true;
    let mut crabler = Crabler::new(recorder, &opts);
    let workers = crabler.prepare(&opts).unwrap();
    let mut visited = VisitedSet::new();

    let (counts, fetched) = drive(&mut crabler, &mut visited, &workers[0]).unwrap();

    assert_eq!(
        fetched,
        vec![
            "https://example.test/".to_string(),
            "https://example.test/a".to_string(),
            "https://example.test/b".to_string(),
        ]
    );
    // two seeds, then five links found on the three pages: seven results
    assert_eq!(counts, vec![2, 3, 2, 2, 3, 2, 1, 0]);
    assert_eq!(crabler.outstanding(), 0);
    assert_eq!(visited.len(), 3);
    let responses: Vec<u16> = crabler
        .scraper()
        .calls
        .iter()
        .filter_map(|call| match call {
            Call::Response { status, .. } => Some(*status),
            Call::Html { .. } => None,
        })
        .collect();
    assert_eq!(responses, vec![200, 304, 200, 200, 304, 304, 304]);
}

#[test]
fn failing_handler_ends_the_run_and_retires_nothing() {
    let mut recorder = Recorder::new(vec!["a[href]"]);
    recorder.fail_on_status = Some(304);
    let mut crabler = Crabler::new(recorder, &Opts::new());
    crabler.navigate("u").unwrap();
    crabler.navigate("v").unwrap();
    let outputs = vec![WorkOutput::Noop("u".to_string()), WorkOutput::Noop("v".to_string())];
    assert_eq!(crabler.event_loop(outputs), Err(CrablerError::Io("handler failed".to_string())));
    assert_eq!(crabler.outstanding(), 2);
    assert_eq!(crabler.scraper().calls, vec![on_response("u", 304)]);
}

#[test]
fn work_enqueued_by_a_failing_handler_is_still_counted() {
    let mut recorder = Recorder::new(vec!["a[href]"]);
    recorder.revisit_on = vec!["u"];
    recorder.fail_on_status = Some(200);
    let mut crabler = Crabler::new(recorder, &Opts::new());
    crabler.navigate("u").unwrap();
    crabler.take_enqueued();
    assert_eq!(
        crabler.process_output(page("u", "<a href=\"/1\">first</a>")),
        Err(CrablerError::Io("handler failed".to_string()))
    );
    assert_eq!(crabler.scraper().calls, vec![on_response("u", 200)]);
    assert_eq!(crabler.outstanding(), 2);
    assert_eq!(crabler.take_enqueued(), vec![WorkInput::Navigate("u".to_string())]);
}

#[test]
fn unsupported_selector_ends_the_run_before_any_handler() {
    let mut crabler = Crabler::new(Recorder::new(vec!["a", "[=x]"]), &Opts::new());
    crabler.navigate("u").unwrap();
    assert_eq!(
        crabler.process_output(page("u", "<a>x</a>")),
        Err(CrablerError::Selector("[=x]".to_string()))
    );
    assert_eq!(crabler.outstanding(), 1);
    assert!(crabler.scraper().calls.is_empty());
    // results without markup are not held up by it
    assert_eq!(crabler.process_output(WorkOutput::Noop("u".to_string())), Ok(true));
}

#[test]
fn echo_of_a_stop_is_reported_to_no_handler() {
    let mut crabler = Crabler::new(Recorder::new(vec!["a"]), &Opts::new());
    crabler.navigate("u").unwrap();
    crabler.navigate("v").unwrap();
    assert_eq!(crabler.process_output(WorkOutput::Exit), Ok(false));
    assert_eq!(crabler.outstanding(), 1);
    assert!(crabler.scraper().calls.is_empty());
}

#[test]
fn each_kind_of_result_has_its_status() {
    let mut crabler = Crabler::new(Recorder::new(vec![]), &Opts::new());
    for url in ["m", "d", "n", "e"] {
        crabler.navigate(url).unwrap();
    }
    let outputs = vec![
        WorkOutput::Markup { url: "m".to_string(), text: "".to_string(), status: 418 },
        WorkOutput::Download { url: "d".to_string(), destination: "d.bin".to_string() },
        WorkOutput::Noop("n".to_string()),
        WorkOutput::Error("e".to_string(), CrablerError::Io("broken pipe".to_string())),
    ];
    assert_eq!(crabler.event_loop(outputs), Ok(()));
    assert_eq!(
        crabler.scraper().calls,
        vec![
            on_response("m", 418),
            Call::Response { url: "d".to_string(), status: 200, destination: Some("d.bin".to_string()) },
            on_response("n", 304),
            on_response("e", 500),
        ]
    );
}

#[test]
fn loop_ends_at_once_when_nothing_is_outstanding() {
    let mut crabler = Crabler::new(Recorder::new(vec![]), &Opts::new());
    assert_eq!(crabler.event_loop(vec![WorkOutput::Noop("u".to_string())]), Ok(()));
    assert!(crabler.scraper().calls.is_empty());
    assert_eq!(crabler.event_loop(vec![]), Ok(()));
}

#[test]
fn loop_drops_results_that_arrive_after_the_end() {
    let mut crabler = Crabler::new(Recorder::new(vec![]), &Opts::new());
    crabler.navigate("u").unwrap();
    let outputs = vec![WorkOutput::Noop("u".to_string()), WorkOutput::Noop("v".to_string())];
    assert_eq!(crabler.event_loop(outputs), Ok(()));
    assert_eq!(crabler.scraper().calls, vec![on_response("u", 304)]);
    assert_eq!(crabler.outstanding(), 0);
}

#[test]
fn results_running_out_early_is_an_error() {
    let mut crabler = Crabler::new(Recorder::new(vec![]), &Opts::new());
    crabler.navigate("u").unwrap();
    crabler.navigate("v").unwrap();
    assert_eq!(crabler.results_closed(), Err(CrablerError::AsyncRecvError));
    assert_eq!(
        crabler.event_loop(vec![WorkOutput::Noop("u".to_string())]),
        Err(CrablerError::AsyncRecvError)
    );
    assert_eq!(crabler.outstanding(), 1);
    crabler.shutdown();
    assert_eq!(crabler.results_closed(), Ok(()));
    assert_eq!(crabler.event_loop(vec![]), Ok(()));
}

#[test]
fn shutdown_sends_one_stop_for_each_worker() {
    let opts = Opts::new().with_threads(3).with_follow_redirects(false);
    let mut crabler = Crabler::new(Recorder::new(vec![]), &opts);
    assert!(!crabler.follow_redirects());
    let workers = crabler.prepare(&opts).unwrap();
    assert_eq!(workers, vec![Worker::new(0), Worker::new(1), Worker::new(2)]);
    assert_eq!(crabler.start_worker(), Worker::new(3));
    crabler.shutdown();
    assert_eq!(crabler.outstanding(), 0);
    assert_eq!(
        crabler.take_enqueued(),
        vec![WorkInput::Exit, WorkInput::Exit, WorkInput::Exit, WorkInput::Exit]
    );
    crabler.shutdown();
    assert_eq!(crabler.take_enqueued(), vec![]);
}

#[test]
fn nothing_is_enqueued_after_shutdown() {
    let mut crabler = Crabler::new(Recorder::new(vec![]), &Opts::new());
    crabler.navigate("u").unwrap();
    crabler.shutdown();
    assert_eq!(crabler.navigate("v"), Err(CrablerError::AsyncSendError("v".to_string())));
    assert_eq!(crabler.outstanding(), 1);
    assert_eq!(crabler.take_enqueued(), vec![WorkInput::Navigate("u".to_string())]);

    let opts = Opts::new().with_urls(vec!["w", "x"]).with_threads(2);
    assert_eq!(crabler.prepare(&opts), Err(CrablerError::AsyncSendError("w".to_string())));
    assert_eq!(crabler.take_enqueued(), vec![]);
}

#[test]
fn handler_enqueues_are_refused_after_shutdown() {
    let mut recorder = Recorder::new(vec![]);
    recorder.revisit_on = vec!["u"];
    let mut crabler = Crabler::new(recorder, &Opts::new());
    crabler.navigate("u").unwrap();
    crabler.take_enqueued();
    crabler.shutdown();
    assert_eq!(
        crabler.process_output(page("u", "")),
        Err(CrablerError::AsyncSendError("u".to_string()))
    );
    assert_eq!(crabler.outstanding(), 1);
}

#[test]
fn absorb_takes_over_what_a_response_holds() {
    let mut crabler = Crabler::new(Recorder::new(vec![]), &Opts::new());
    crabler.navigate("seed").unwrap();
    let mut response = WorkOutput::Noop("u".to_string()).response(crabler_sender(1));
    response.navigate("a".to_string()).unwrap();
    response.download_file("b".to_string(), "b.bin".to_string()).unwrap();
    assert_eq!(crabler.absorb(response), Ok(()));
    assert_eq!(crabler.outstanding(), 3);
    assert!(!crabler.retire());
    assert_eq!(crabler.outstanding(), 2);
    assert_eq!(
        crabler.take_enqueued(),
        vec![
            WorkInput::Navigate("seed".to_string()),
            WorkInput::Navigate("a".to_string()),
            WorkInput::Download { url: "b".to_string(), destination: "b.bin".to_string() },
        ]
    );

    crabler.shutdown();
    let mut late = WorkOutput::Noop("late".to_string()).response(crabler_sender(2));
    late.navigate("c".to_string()).unwrap();
    assert_eq!(crabler.absorb(late), Err(CrablerError::AsyncSendError("late".to_string())));
    let idle = WorkOutput::Noop("idle".to_string()).response(crabler_sender(2));
    assert_eq!(crabler.absorb(idle), Ok(()));
    assert_eq!(crabler.outstanding(), 2);
}

fn crabler_sender(outstanding: usize) -> crabler::WorkSender {
    let mut counter = crabler::PendingCounter::new();
    counter.increment_by(outstanding);
    crabler::WorkSender::new(counter)
}

#[test]
fn run_shuts_down_however_the_loop_ended() {
    let opts = Opts::new().with_urls(vec!["u"]).with_threads(2);
    let mut crabler = Crabler::new(Recorder::new(vec![]), &opts);
    crabler.prepare(&opts).unwrap();
    assert_eq!(crabler.take_enqueued(), vec![WorkInput::Navigate("u".to_string())]);
    assert_eq!(crabler.run(vec![WorkOutput::Noop("u".to_string())]), Ok(()));
    assert_eq!(crabler.take_enqueued(), vec![WorkInput::Exit, WorkInput::Exit]);

    let mut failing = Crabler::new(Recorder::new(vec![]), &opts);
    failing.prepare(&opts).unwrap();
    failing.take_enqueued();
    assert_eq!(failing.run(vec![]), Err(CrablerError::AsyncRecvError));
    assert_eq!(failing.take_enqueued(), vec![WorkInput::Exit, WorkInput::Exit]);
    assert_eq!(failing.navigate("v"), Err(CrablerError::AsyncSendError("v".to_string())));
}

#[test]
fn new_coordinator_has_nothing_to_do() {
    let opts = Opts::new().with_urls(vec!["u"]);
    let mut crabler = Crabler::new(Recorder::new(vec![]), &opts);
    assert_eq!(crabler.outstanding(), 0);
    assert!(crabler.follow_redirects());
    assert_eq!(crabler.take_enqueued(), vec![]);
    assert_eq!(crabler.results_closed(), Ok(()));
}
