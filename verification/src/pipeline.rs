//! The sign-in attempt as a whole: credentials are extracted, exchanged for a
//! sign-in token, the token is built into the console URL, and the URL is
//! opened in a browser. The attempt moves from stage to stage; what has to
//! happen outside (sending the request, starting the browser) is handed to
//! the caller as an action, and what came of it comes back as an event. A
//! stage that fails ends the attempt.

use vstd::prelude::*;

use crate::console::console_url;
use crate::console::get_console_url;
use crate::credentials::extracted;
use crate::credentials::answers_all;
use crate::credentials::get_aws_credentials;
use crate::credentials::Credentials;
use crate::credentials::CredentialsView;
use crate::error::outcome;
use crate::error::Error;
use crate::error::ErrorView;
use crate::exchange::exchanged;
use crate::exchange::is_success;
use crate::exchange::request_for;
use crate::exchange::session_descriptor;
use crate::exchange::signin_request;
use crate::exchange::signin_token_from_response;
use crate::exchange::SigninRequest;
use crate::exchange::SigninRequestView;
use crate::json::parsed_document;
use crate::json::pretty_object;

verus! {

/// Where a sign-in attempt stands between two steps.
#[derive(Debug, PartialEq, Eq)]
pub enum Stage {
    /// The request for a sign-in token is out; the answer will be built into
    /// the console URL of `region`.
    Exchanging { region: String },
    /// The console URL is out; the browser has yet to report.
    Launching,
    /// The browser is open on the console URL.
    Done,
    /// The attempt failed, for the reason given.
    Failed(Error),
}

/// What the caller is asked to do next.
#[derive(Debug, PartialEq, Eq)]
pub enum Action {
    /// Send this request to the federation endpoint and report its answer.
    Send(SigninRequest),
    /// Open this URL in the browser and report whether it started.
    Open(String),
    /// Nothing is left to do.
    Stop,
}

/// What came of an action.
#[derive(Debug, PartialEq, Eq)]
pub enum Event {
    /// The federation endpoint answered with this status and body.
    Answered { status: u16, body: Vec<u8> },
    /// The request could not be sent, or no answer arrived.
    Unanswered { cause: String },
    /// The browser started.
    Launched,
    /// The browser could not be started.
    NotLaunched { cause: String },
}

/// A [`Stage`] with its texts as sequences of characters.
pub enum StageView {
    Exchanging { region: Seq<char> },
    Launching,
    Done,
    Failed(ErrorView),
}

/// An [`Action`] with its texts as sequences of characters.
pub enum ActionView {
    Send(SigninRequestView),
    Open(Seq<char>),
    Stop,
}

/// An [`Event`] with its texts as sequences of characters.
pub enum EventView {
    Answered { status: u16, body: Seq<u8> },
    Unanswered { cause: Seq<char> },
    Launched,
    NotLaunched { cause: Seq<char> },
}

impl View for Stage {
    type V = StageView;

    open spec fn view(&self) -> StageView {
        match *self {
            Stage::Exchanging { region } => StageView::Exchanging { region: region@ },
            Stage::Launching => StageView::Launching,
            Stage::Done => StageView::Done,
            Stage::Failed(error) => StageView::Failed(error@),
        }
    }
}

impl View for Action {
    type V = ActionView;

    open spec fn view(&self) -> ActionView {
        match *self {
            Action::Send(request) => ActionView::Send(request@),
            Action::Open(url) => ActionView::Open(url@),
            Action::Stop => ActionView::Stop,
        }
    }
}

impl View for Event {
    type V = EventView;

    open spec fn view(&self) -> EventView {
        match *self {
            Event::Answered { status, body } => EventView::Answered { status, body: body@ },
            Event::Unanswered { cause } => EventView::Unanswered { cause: cause@ },
            Event::Launched => EventView::Launched,
            Event::NotLaunched { cause } => EventView::NotLaunched { cause: cause@ },
        }
    }
}

/// A failed stage ends the attempt.
pub open spec fn failed(error: ErrorView) -> (StageView, ActionView) {
    (StageView::Failed(error), ActionView::Stop)
}

/// The first step, given what the extraction of the credentials came to:
/// with credentials, the request for a sign-in token goes out.
pub open spec fn begun(credentials: Result<CredentialsView, ErrorView>, region: Seq<char>) -> (
    StageView,
    ActionView,
) {
    match credentials {
        Err(error) => failed(error),
        Ok(credentials) => match request_for(
            pretty_object(session_descriptor(credentials)),
            region,
        ) {
            Err(error) => failed(error),
            Ok(request) => (StageView::Exchanging { region }, ActionView::Send(request)),
        },
    }
}

/// The step after the exchange, given what it came to: with a token, the
/// console URL is built and goes out to the browser.
pub open spec fn exchange_done(token: Result<Seq<char>, ErrorView>, region: Seq<char>) -> (
    StageView,
    ActionView,
) {
    match token {
        Err(error) => failed(error),
        Ok(token) => match console_url(token, region) {
            Err(error) => failed(error),
            Ok(url) => (StageView::Launching, ActionView::Open(url)),
        },
    }
}

/// The step that an event brings about in a stage. An event that does not
/// belong to the stage changes nothing and asks for nothing.
pub open spec fn stepped(stage: StageView, event: EventView) -> (StageView, ActionView) {
    match (stage, event) {
        (StageView::Exchanging { region }, EventView::Answered { status, body }) => exchange_done(
            exchanged(status, parsed_document(body)),
            region,
        ),
        (StageView::Exchanging { .. }, EventView::Unanswered { cause }) => failed(
            ErrorView::ExchangeFailed { cause },
        ),
        (StageView::Launching, EventView::Launched) => (StageView::Done, ActionView::Stop),
        (StageView::Launching, EventView::NotLaunched { cause }) => failed(
            ErrorView::LaunchFailed { cause },
        ),
        _ => (stage, ActionView::Stop),
    }
}

/// Whether `next` is a first step that the environment `env` allows: the
/// first step after an extraction that `env` allows.
pub open spec fn started<F: Fn(&str) -> Result<String, String>>(
    env: F,
    requested: Seq<char>,
    region: Seq<char>,
    next: (StageView, ActionView),
) -> bool {
    exists|credentials: Result<CredentialsView, ErrorView>| #[trigger]
        extracted(env, requested, credentials) && next == begun(credentials, region)
}

fn fail(error: Error) -> (next: (Stage, Action))
    ensures
        (next.0@, next.1@) == failed(error@),
{
    (Stage::Failed(error), Action::Stop)
}

/// Takes the first step with what the extraction of the credentials came to.
pub fn begin(credentials: Result<Credentials, Error>, region: &str) -> (next: (Stage, Action))
    ensures
        (next.0@, next.1@) == begun(outcome(credentials), region@),
{
    match credentials {
        Err(error) => fail(error),
        Ok(credentials) => match signin_request(&credentials, region) {
            Err(error) => fail(error),
            Ok(request) => (Stage::Exchanging { region: region.to_owned() }, Action::Send(request)),
        },
    }
}

/// Starts a sign-in attempt for a profile in a region: extracts the
/// credentials from the environment and asks for the exchange.
pub fn start<F: Fn(&str) -> Result<String, String>>(
    profile_name: &str,
    region: &str,
    env_getter: F,
) -> (next: (Stage, Action))
    requires
        answers_all(env_getter),
    ensures
        started(env_getter, profile_name@, region@, (next.0@, next.1@)),
{
    let credentials = get_aws_credentials(profile_name, env_getter);
    begin(credentials, region)
}

/// Takes the step after the exchange with what the exchange came to.
pub fn finish_exchange(token: Result<String, Error>, region: &str) -> (next: (Stage, Action))
    ensures
        (next.0@, next.1@) == exchange_done(outcome(token), region@),
{
    match token {
        Err(error) => fail(error),
        Ok(token) => match get_console_url(token.as_str(), region) {
            Err(error) => fail(error),
            Ok(url) => (Stage::Launching, Action::Open(url)),
        },
    }
}

/// Takes the step that an event brings about in a stage.
pub fn step(stage: Stage, event: Event) -> (next: (Stage, Action))
    ensures
        (next.0@, next.1@) == stepped(stage@, event@),
{
    match (stage, event) {
        (Stage::Exchanging { region }, Event::Answered { status, body }) => finish_exchange(
            signin_token_from_response(status, body.as_slice()),
            region.as_str(),
        ),
        (Stage::Exchanging { .. }, Event::Unanswered { cause }) => fail(
            Error::ExchangeFailed { cause },
        ),
        (Stage::Launching, Event::Launched) => (Stage::Done, Action::Stop),
        (Stage::Launching, Event::NotLaunched { cause }) => fail(Error::LaunchFailed { cause }),
        (stage, _) => (stage, Action::Stop),
    }
}

/// A failed attempt stays failed: whatever is reported afterwards, the error
/// stands and nothing more is asked for.
pub proof fn failure_is_final(error: ErrorView, event: EventView)
    ensures
        stepped(StageView::Failed(error), event) == failed(error),
{
}

/// An answer whose status is no success fails the exchange, whatever its
/// body holds: the attempt ends there, and the browser is not asked for.
pub proof fn refused_exchange_ends_attempt(region: Seq<char>, status: u16, body: Seq<u8>)
    requires
        !is_success(status),
    ensures
        stepped(StageView::Exchanging { region }, EventView::Answered { status, body }).0
            matches StageView::Failed(ErrorView::ExchangeFailed { .. }),
        stepped(StageView::Exchanging { region }, EventView::Answered { status, body }).1
            == ActionView::Stop,
{
}

/// The browser is asked for in one case only: the exchange is out, the
/// endpoint answers with a success, its body holds a sign-in token, and the
/// URL is the console URL of that token and the attempt's region.
pub proof fn open_follows_exchange(stage: StageView, event: EventView, url: Seq<char>)
    requires
        stepped(stage, event).1 == ActionView::Open(url),
    ensures
        stepped(stage, event).0 == StageView::Launching,
        ({
            &&& stage matches StageView::Exchanging { region }
            &&& event matches EventView::Answered { status, body }
            &&& is_success(status)
            &&& exchanged(status, parsed_document(body)) matches Ok(token)
            &&& console_url(token, region) == Ok::<Seq<char>, ErrorView>(url)
        }),
{
}

/// Two attempts in one region stand on their own: each successful answer
/// leads to the console URL of its own token, whether or not the endpoint
/// issued the same token twice.
pub proof fn attempts_are_independent(
    region: Seq<char>,
    first: EventView,
    second: EventView,
    first_token: Seq<char>,
    second_token: Seq<char>,
)
    requires
        first matches EventView::Answered { status, body } && exchanged(
            status,
            parsed_document(body),
        ) == Ok::<Seq<char>, ErrorView>(first_token),
        second matches EventView::Answered { status, body } && exchanged(
            status,
            parsed_document(body),
        ) == Ok::<Seq<char>, ErrorView>(second_token),
    ensures
        stepped(StageView::Exchanging { region }, first) == exchange_done(Ok(first_token), region),
        stepped(StageView::Exchanging { region }, second) == exchange_done(
            Ok(second_token),
            region,
        ),
{
}

} // verus!
