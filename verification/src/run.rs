//! A request from start to end, under every way the outside world can go.
//!
//! The driver and the outside world are not part of this crate. What they
//! can do to a request is little, though: the credential is configured or it
//! is not, the upstream service answers with some status or cannot be
//! reached, and its body can be read or it cannot. This module follows a
//! request through any such world and states what comes of it.

use crate::config::KEY_VARIABLE;
use crate::json::json_string;
use crate::proxy::{ActionView, EventView, StageView, TransitionView, started, transition};
use crate::reply::{
    BodyKind, KEY_MISSING, OutcomeView, READ_FAILED, ReplyView, UPSTREAM_UNREACHABLE, reply_to,
};
use crate::upstream::weather_url;
use vstd::prelude::*;

verus! {

/// What the outside world holds for one request.
pub struct World {
    /// The configured credential, if there is one.
    pub key: Option<Seq<char>>,
    /// The status that the upstream service answers with, if it can be
    /// reached.
    pub answer: Option<int>,
    /// The body of that answer, if it can be read.
    pub body: Option<Seq<char>>,
}

/// How a request ends in `world`: with the first thing that fails, or with
/// the upstream's answer where nothing does.
pub open spec fn outcome_in(world: World) -> OutcomeView {
    match world.key {
        None => OutcomeView::ConfigMissing,
        Some(_) => match world.answer {
            None => OutcomeView::UpstreamUnreachable,
            Some(status) => match world.body {
                None => OutcomeView::ReadFailure,
                Some(body) => OutcomeView::Success { status, body },
            },
        },
    }
}

/// What comes of `action` in `world`; nothing comes of a reply.
pub open spec fn event_of(action: ActionView, world: World) -> Option<EventView> {
    match action {
        ActionView::ReadKey { .. } => Some(EventView::Key(world.key)),
        ActionView::Fetch { .. } => Some(EventView::Answer(world.answer)),
        ActionView::ReadBody => Some(EventView::Body(world.body)),
        ActionView::Respond { .. } => None,
    }
}

/// The number of events that a request in `stage` can still take.
pub open spec fn events_left(stage: StageView) -> nat {
    match stage {
        StageView::AwaitingKey { .. } => 3,
        StageView::AwaitingUpstream => 2,
        StageView::AwaitingBody { .. } => 1,
        StageView::Done => 0,
    }
}

/// The actions that a driver performs from `at` on, in order, where every
/// action has the event that `world` gives it.
pub open spec fn actions_from(at: TransitionView, world: World) -> Seq<ActionView>
    decreases events_left(at.stage),
{
    match event_of(at.action, world) {
        Some(event) => match transition(at.stage, event) {
            Some(after) => seq![at.action] + actions_from(after, world),
            None => seq![at.action],
        },
        None => seq![at.action],
    }
}

/// The actions that serving a request for `city` takes in `world`.
pub open spec fn run(city: Seq<char>, world: World) -> Seq<ActionView> {
    actions_from(started(city), world)
}

/// Every event that a stage waits for takes the request nearer to its end.
pub proof fn lemma_step_advances(stage: StageView, event: EventView)
    requires
        transition(stage, event) is Some,
    ensures
        events_left(transition(stage, event)->0.stage) < events_left(stage),
{
}

/// Whatever the world holds, a request is served in at most four actions.
/// The last of them, and no other, is the reply, and it is the reply that
/// the outcome in this world gets.
pub proof fn lemma_run_ends_in_reply(city: Seq<char>, world: World)
    ensures
        2 <= run(city, world).len() <= 4,
        run(city, world).last() == (ActionView::Respond { reply: reply_to(outcome_in(world)) }),
        forall|i: int| 0 <= i < run(city, world).len() - 1 ==> !(run(city, world)[i] is Respond),
{
    reveal_with_fuel(actions_from, 4);
}

/// The upstream service is asked at most once per request, as the second
/// action, and only where a credential is configured; the address is then
/// the one for this city and this credential.
pub proof fn lemma_one_fetch_at_most(city: Seq<char>, world: World, i: int)
    requires
        0 <= i < run(city, world).len(),
        run(city, world)[i] is Fetch,
    ensures
        i == 1,
        world.key matches Some(key) && run(city, world)[i] == (ActionView::Fetch {
            url: weather_url(city, key),
        }),
{
    reveal_with_fuel(actions_from, 4);
}

/// Where the upstream service answers and its body can be read, the reply
/// has the upstream's status and, for a body, the upstream's body written
/// once as a JSON string.
pub proof fn lemma_answer_is_relayed(
    city: Seq<char>,
    key: Seq<char>,
    status: int,
    body: Seq<char>,
)
    ensures
        run(city, World { key: Some(key), answer: Some(status), body: Some(body) }) == seq![
            ActionView::ReadKey { variable: KEY_VARIABLE@ },
            ActionView::Fetch { url: weather_url(city, key) },
            ActionView::ReadBody,
            ActionView::Respond {
                reply: ReplyView { status, kind: BodyKind::Json, body: json_string(body) },
            },
        ],
{
    reveal_with_fuel(actions_from, 4);
}

/// Where no credential is configured, the reply is 500 with its fixed text,
/// and the upstream service is not asked.
pub proof fn lemma_missing_key_ends_request(city: Seq<char>, world: World)
    requires
        world.key is None,
    ensures
        run(city, world) == seq![
            ActionView::ReadKey { variable: KEY_VARIABLE@ },
            ActionView::Respond {
                reply: ReplyView { status: 500, kind: BodyKind::Text, body: KEY_MISSING@ },
            },
        ],
{
    reveal_with_fuel(actions_from, 4);
}

/// Where the upstream service cannot be reached, the reply is 502 with its
/// fixed text.
pub proof fn lemma_unreachable_upstream_is_bad_gateway(city: Seq<char>, world: World)
    requires
        world.key is Some,
        world.answer is None,
    ensures
        run(city, world) == seq![
            ActionView::ReadKey { variable: KEY_VARIABLE@ },
            ActionView::Fetch { url: weather_url(city, world.key->0) },
            ActionView::Respond {
                reply: ReplyView {
                    status: 502,
                    kind: BodyKind::Text,
                    body: UPSTREAM_UNREACHABLE@,
                },
            },
        ],
{
    reveal_with_fuel(actions_from, 4);
}

/// Where the upstream service answers and its body cannot be read, the
/// reply is 500 with its fixed text, whatever the upstream's status was.
pub proof fn lemma_unreadable_body_is_server_error(city: Seq<char>, world: World)
    requires
        world.key is Some,
        world.answer is Some,
        world.body is None,
    ensures
        run(city, world) == seq![
            ActionView::ReadKey { variable: KEY_VARIABLE@ },
            ActionView::Fetch { url: weather_url(city, world.key->0) },
            ActionView::ReadBody,
            ActionView::Respond {
                reply: ReplyView { status: 500, kind: BodyKind::Text, body: READ_FAILED@ },
            },
        ],
{
    reveal_with_fuel(actions_from, 4);
}

} // verus!
