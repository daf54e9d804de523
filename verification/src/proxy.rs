//! One request for the weather, from the city in the query to the reply.
//!
//! Serving a request takes up to three things that only the outside world
//! can do: looking up the credential, asking the upstream service, and
//! reading the body of its answer. Each can fail, and the first failure ends
//! the request. What is done next, and what is replied in the end, is decided
//! here: the driver performs the action it is given, reports what came of it
//! as an event, and is given the next action.

use crate::config::KEY_VARIABLE;
use crate::reply::{Outcome, OutcomeView, Reply, ReplyView, reply_to};
use crate::status::Status;
use crate::upstream::{to_weather_url, weather_url};
use vstd::prelude::*;

verus! {

/// What the caller asks for: the weather in one city. Any text is taken for
/// the name of a city, the empty one too.
#[derive(Debug, PartialEq, Eq)]
pub struct WeatherRequest {
    pub city: String,
}

impl View for WeatherRequest {
    type V = Seq<char>;

    open spec fn view(&self) -> Seq<char> {
        self.city@
    }
}

/// How far a request has come.
#[derive(Debug, PartialEq, Eq)]
pub enum Stage {
    /// The credential is being looked up.
    AwaitingKey { city: String },
    /// The upstream service has been asked.
    AwaitingUpstream,
    /// The upstream service has answered with `status`, and the body of its
    /// answer is being read.
    AwaitingBody { status: Status },
    /// The reply has been given out.
    Done,
}

/// A stage as contracts see it.
pub enum StageView {
    AwaitingKey { city: Seq<char> },
    AwaitingUpstream,
    AwaitingBody { status: int },
    Done,
}

impl View for Stage {
    type V = StageView;

    open spec fn view(&self) -> StageView {
        match *self {
            Stage::AwaitingKey { city } => StageView::AwaitingKey { city: city@ },
            Stage::AwaitingUpstream => StageView::AwaitingUpstream,
            Stage::AwaitingBody { status } => StageView::AwaitingBody { status: status@ },
            Stage::Done => StageView::Done,
        }
    }
}

/// What the driver is to do next.
#[derive(Debug, PartialEq, Eq)]
pub enum Action {
    /// Look up the credential in the environment variable `variable`.
    ReadKey { variable: &'static str },
    /// Send one `GET` request to `url`.
    Fetch { url: String },
    /// Read the whole body of the upstream's answer as text.
    ReadBody,
    /// Send `reply` to the caller. Nothing follows.
    Respond { reply: Reply },
}

/// An action as contracts see it.
pub enum ActionView {
    ReadKey { variable: Seq<char> },
    Fetch { url: Seq<char> },
    ReadBody,
    Respond { reply: ReplyView },
}

impl View for Action {
    type V = ActionView;

    open spec fn view(&self) -> ActionView {
        match *self {
            Action::ReadKey { variable } => ActionView::ReadKey { variable: variable@ },
            Action::Fetch { url } => ActionView::Fetch { url: url@ },
            Action::ReadBody => ActionView::ReadBody,
            Action::Respond { reply } => ActionView::Respond { reply: reply@ },
        }
    }
}

/// What came of an action.
#[derive(Debug, PartialEq, Eq)]
pub enum Event {
    /// The credential, or `None` where none is configured.
    Key(Option<String>),
    /// The status with which the upstream service answered, or `None` where
    /// the request did not get through.
    Answer(Option<Status>),
    /// The body of the upstream's answer, or `None` where reading it failed.
    Body(Option<String>),
}

/// An event as contracts see it.
pub enum EventView {
    Key(Option<Seq<char>>),
    Answer(Option<int>),
    Body(Option<Seq<char>>),
}

impl View for Event {
    type V = EventView;

    open spec fn view(&self) -> EventView {
        match *self {
            Event::Key(None) => EventView::Key(None),
            Event::Key(Some(key)) => EventView::Key(Some(key@)),
            Event::Answer(None) => EventView::Answer(None),
            Event::Answer(Some(status)) => EventView::Answer(Some(status@)),
            Event::Body(None) => EventView::Body(None),
            Event::Body(Some(text)) => EventView::Body(Some(text@)),
        }
    }
}

/// A stage together with the action that is under way in it.
#[derive(Debug, PartialEq, Eq)]
pub struct Transition {
    pub stage: Stage,
    pub action: Action,
}

/// A transition as contracts see it.
pub struct TransitionView {
    pub stage: StageView,
    pub action: ActionView,
}

impl View for Transition {
    type V = TransitionView;

    open spec fn view(&self) -> TransitionView {
        TransitionView { stage: self.stage@, action: self.action@ }
    }
}

/// How a request starts: with the lookup of the credential.
pub open spec fn started(city: Seq<char>) -> TransitionView {
    TransitionView {
        stage: StageView::AwaitingKey { city },
        action: ActionView::ReadKey { variable: KEY_VARIABLE@ },
    }
}

/// How a request ends: with the reply that its outcome gets.
pub open spec fn finished(outcome: OutcomeView) -> TransitionView {
    TransitionView {
        stage: StageView::Done,
        action: ActionView::Respond { reply: reply_to(outcome) },
    }
}

/// What follows when `event` arrives in `stage`, or `None` where the stage
/// does not wait for such an event.
///
/// A failure ends the request at once with its reply. Success leads on:
/// from the credential to the one request to the upstream service, from the
/// upstream's answer to the reading of its body, and from the body to the
/// reply that relays it.
pub open spec fn transition(stage: StageView, event: EventView) -> Option<TransitionView> {
    match (stage, event) {
        (StageView::AwaitingKey { city }, EventView::Key(None)) => Some(
            finished(OutcomeView::ConfigMissing),
        ),
        (StageView::AwaitingKey { city }, EventView::Key(Some(key))) => Some(
            TransitionView {
                stage: StageView::AwaitingUpstream,
                action: ActionView::Fetch { url: weather_url(city, key) },
            },
        ),
        (StageView::AwaitingUpstream, EventView::Answer(None)) => Some(
            finished(OutcomeView::UpstreamUnreachable),
        ),
        (StageView::AwaitingUpstream, EventView::Answer(Some(status))) => Some(
            TransitionView {
                stage: StageView::AwaitingBody { status },
                action: ActionView::ReadBody,
            },
        ),
        (StageView::AwaitingBody { status }, EventView::Body(None)) => Some(
            finished(OutcomeView::ReadFailure),
        ),
        (StageView::AwaitingBody { status }, EventView::Body(Some(body))) => Some(
            finished(OutcomeView::Success { status, body }),
        ),
        _ => None,
    }
}

/// Starts the handling of `request`.
pub fn begin(request: WeatherRequest) -> (first: Transition)
    ensures
        first@ == started(request@),
{
    Transition {
        stage: Stage::AwaitingKey { city: request.city },
        action: Action::ReadKey { variable: KEY_VARIABLE },
    }
}

fn finish(outcome: Outcome) -> (last: Transition)
    ensures
        last@ == finished(outcome@),
{
    Transition { stage: Stage::Done, action: Action::Respond { reply: outcome.into_reply() } }
}

/// Takes the request one step on. Given the stage it is in and the event
/// that has arrived, returns the stage it is in afterwards and the action to
/// perform there. Returns `None` where the stage does not wait for such an
/// event; nothing is to be done in that case.
pub fn step(stage: Stage, event: Event) -> (after: Option<Transition>)
    ensures
        match after {
            Some(taken) => transition(stage@, event@) == Some(taken@),
            None => transition(stage@, event@) is None,
        },
{
    match stage {
        Stage::AwaitingKey { city } => match event {
            Event::Key(None) => Some(finish(Outcome::ConfigMissing)),
            Event::Key(Some(key)) => Some(
                Transition {
                    stage: Stage::AwaitingUpstream,
                    action: Action::Fetch { url: to_weather_url(city.as_str(), key.as_str()) },
                },
            ),
            _ => None,
        },
        Stage::AwaitingUpstream => match event {
            Event::Answer(None) => Some(finish(Outcome::UpstreamUnreachable)),
            Event::Answer(Some(status)) => Some(
                Transition { stage: Stage::AwaitingBody { status }, action: Action::ReadBody },
            ),
            _ => None,
        },
        Stage::AwaitingBody { status } => match event {
            Event::Body(None) => Some(finish(Outcome::ReadFailure)),
            Event::Body(Some(body)) => Some(finish(Outcome::Success { status, body })),
            _ => None,
        },
        Stage::Done => None,
    }
}

} // verus!
