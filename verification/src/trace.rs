use vstd::prelude::*;
use crate::error::BotError;
use crate::model::{Config, Guild, is_first_match, mine_role_name, role_exists};
use crate::dispatch::{
    Action, Event, Phase, ProtectedCommand, mine_query, not_in_guild_reply, path_of,
    role_missing_reply, step_rel, unauthorized_reply,
};

verus! {

/// A run of one protected-command invocation: `phases` lists the
/// machine's states, starting at `Start`; `events[i]` and `actions[i]`
/// are the event taken and the action obliged by the step from
/// `phases[i]` to `phases[i + 1]`.
pub open spec fn valid_trace(
    cfg: Config,
    cmd: ProtectedCommand,
    events: Seq<Event>,
    phases: Seq<Phase>,
    actions: Seq<Action>,
) -> bool {
    &&& phases.len() == events.len() + 1
    &&& actions.len() == events.len()
    &&& phases[0] == Phase::Start
    &&& forall|i: int|
        0 <= i < events.len() ==> step_rel(
            cfg,
            cmd,
            phases[i],
            #[trigger] events[i],
            phases[i + 1],
            actions[i],
        )
}

/// A phase from which no event is taken.
pub open spec fn terminal(phase: Phase) -> bool {
    phase is Done || phase is Failed
}

/// An invocation outside a guild replies exactly "You are not a member
/// of this server", ends at once in `NotInGuild`, and issues no
/// outward HTTP request.
pub proof fn lemma_outside_guild(
    cfg: Config,
    cmd: ProtectedCommand,
    events: Seq<Event>,
    phases: Seq<Phase>,
    actions: Seq<Action>,
    invoker_id: u64,
)
    requires
        valid_trace(cfg, cmd, events, phases, actions),
        events.len() > 0,
        events[0] == (Event::Invoke { invoker_id, guild: Option::<Guild>::None }),
    ensures
        events.len() == 1,
        phases[1] == (Phase::Failed { err: BotError::NotInGuild }),
        actions[0] matches Action::Reply { text } && text@ == not_in_guild_reply(),
        forall|i: int| 0 <= i < actions.len() ==> !(#[trigger] actions[i] is HttpGet),
{
    assert(step_rel(cfg, cmd, phases[0], events[0], phases[1], actions[0]));
    if events.len() > 1 {
        assert(step_rel(cfg, cmd, phases[1], events[1], phases[2], actions[1]));
        assert(false);
    }
}

/// In a guild with no role named `"testing"`, a protected command
/// replies exactly "The Minecraft role does not exist", ends at once
/// in `RoleNotFound`, and issues no outward HTTP request.
pub proof fn lemma_role_missing(
    cfg: Config,
    cmd: ProtectedCommand,
    events: Seq<Event>,
    phases: Seq<Phase>,
    actions: Seq<Action>,
    invoker_id: u64,
    g: Guild,
)
    requires
        valid_trace(cfg, cmd, events, phases, actions),
        events.len() > 0,
        events[0] == (Event::Invoke { invoker_id, guild: Some(g) }),
        !role_exists(g.roles@, mine_role_name()),
    ensures
        events.len() == 1,
        phases[1] == (Phase::Failed { err: BotError::RoleNotFound }),
        actions[0] matches Action::Reply { text } && text@ == role_missing_reply(),
        forall|i: int| 0 <= i < actions.len() ==> !(#[trigger] actions[i] is HttpGet),
{
    assert(step_rel(cfg, cmd, phases[0], events[0], phases[1], actions[0]));
    if events.len() > 1 {
        assert(step_rel(cfg, cmd, phases[1], events[1], phases[2], actions[1]));
        assert(false);
    }
}

/// The first match of a name among roles is unique.
proof fn lemma_first_match_unique(roles: Seq<crate::model::Role>, name: Seq<char>, i: int, j: int)
    requires
        is_first_match(roles, name, i),
        is_first_match(roles, name, j),
    ensures
        i == j,
{
    if i < j {
        assert(roles[i].name@ != name);
    }
    if j < i {
        assert(roles[j].name@ != name);
    }
}

/// A user who does not hold the gating role — `ri` marks the first
/// role named `"testing"` in the guild, and the authoritative snapshot
/// lacks its id — gets the reply "You do not have the Minecraft role";
/// the invocation ends in `Unauthorized` and issues no outward HTTP
/// request.
pub proof fn lemma_unauthorized(
    cfg: Config,
    cmd: ProtectedCommand,
    events: Seq<Event>,
    phases: Seq<Phase>,
    actions: Seq<Action>,
    invoker_id: u64,
    g: Guild,
    ri: int,
    role_ids: Vec<u64>,
)
    requires
        valid_trace(cfg, cmd, events, phases, actions),
        events.len() >= 2,
        events[0] == (Event::Invoke { invoker_id, guild: Some(g) }),
        is_first_match(g.roles@, mine_role_name(), ri),
        events[1] == (Event::Membership { role_ids }),
        !role_ids@.contains(g.roles@[ri].id),
    ensures
        events.len() == 2,
        phases[2] == (Phase::Failed { err: BotError::Unauthorized }),
        actions[1] matches Action::Reply { text } && text@ == unauthorized_reply(),
        forall|i: int| 0 <= i < actions.len() ==> !(#[trigger] actions[i] is HttpGet),
{
    assert(step_rel(cfg, cmd, phases[0], events[0], phases[1], actions[0]));
    assert(role_exists(g.roles@, mine_role_name()));
    let i = choose|i: int|
        #[trigger] is_first_match(g.roles@, mine_role_name(), i) && phases[1] == (
        Phase::AwaitingMembership {
            guild_id: g.id,
            invoker_id,
            role_id: g.roles@[i].id,
        });
    lemma_first_match_unique(g.roles@, mine_role_name(), i, ri);
    assert(step_rel(cfg, cmd, phases[1], events[1], phases[2], actions[1]));
    if events.len() > 2 {
        assert(step_rel(cfg, cmd, phases[2], events[2], phases[3], actions[2]));
        assert(false);
    }
}

/// An authorized invocation issues exactly one outward request — a GET
/// to the base URL followed by the command's path and the fixed
/// container query — and replies with the response body verbatim.
pub proof fn lemma_authorized(
    cfg: Config,
    cmd: ProtectedCommand,
    events: Seq<Event>,
    phases: Seq<Phase>,
    actions: Seq<Action>,
    invoker_id: u64,
    g: Guild,
    ri: int,
    role_ids: Vec<u64>,
    body: String,
)
    requires
        valid_trace(cfg, cmd, events, phases, actions),
        events.len() >= 3,
        events[0] == (Event::Invoke { invoker_id, guild: Some(g) }),
        is_first_match(g.roles@, mine_role_name(), ri),
        events[1] == (Event::Membership { role_ids }),
        role_ids@.contains(g.roles@[ri].id),
        events[2] == (Event::Response { body }),
    ensures
        events.len() == 3,
        phases[3] == Phase::Done,
        actions[1] matches Action::HttpGet { url } && url@ == cfg.api_url@ + path_of(cmd)
            + mine_query(),
        forall|i: int|
            0 <= i < actions.len() && i != 1 ==> !(#[trigger] actions[i] is HttpGet),
        actions[2] matches Action::Reply { text } && text@ == body@,
{
    assert(step_rel(cfg, cmd, phases[0], events[0], phases[1], actions[0]));
    assert(role_exists(g.roles@, mine_role_name()));
    let i = choose|i: int|
        #[trigger] is_first_match(g.roles@, mine_role_name(), i) && phases[1] == (
        Phase::AwaitingMembership {
            guild_id: g.id,
            invoker_id,
            role_id: g.roles@[i].id,
        });
    lemma_first_match_unique(g.roles@, mine_role_name(), i, ri);
    assert(step_rel(cfg, cmd, phases[1], events[1], phases[2], actions[1]));
    assert(step_rel(cfg, cmd, phases[2], events[2], phases[3], actions[2]));
    if events.len() > 3 {
        assert(step_rel(cfg, cmd, phases[3], events[3], phases[4], actions[3]));
        assert(false);
    }
}

/// Over any finished invocation, at most one outward HTTP request is
/// ever issued, and exactly one reply is sent — except on the path
/// where the outward call itself failed, which sends none.
pub proof fn lemma_one_request_one_reply(
    cfg: Config,
    cmd: ProtectedCommand,
    events: Seq<Event>,
    phases: Seq<Phase>,
    actions: Seq<Action>,
)
    requires
        valid_trace(cfg, cmd, events, phases, actions),
        terminal(phases[events.len() as int]),
    ensures
        forall|i: int, j: int|
            0 <= i < j < actions.len() ==> !(#[trigger] actions[i] is HttpGet
                && #[trigger] actions[j] is HttpGet),
        phases[events.len() as int] != (Phase::Failed { err: BotError::ExternalRequestFailed })
            ==> exists|k: int|
            0 <= k < actions.len() && #[trigger] actions[k] is Reply && forall|i: int|
                0 <= i < actions.len() && i != k ==> !(#[trigger] actions[i] is Reply),
{
    let n = events.len() as int;
    assert(n >= 1) by {
        if n == 0 {
            assert(phases[0] == Phase::Start);
            assert(false);
        }
    }
    assert(step_rel(cfg, cmd, phases[0], events[0], phases[1], actions[0]));
    if n >= 2 {
        assert(step_rel(cfg, cmd, phases[1], events[1], phases[2], actions[1]));
    }
    if n >= 3 {
        assert(step_rel(cfg, cmd, phases[2], events[2], phases[3], actions[2]));
    }
    if n >= 4 {
        assert(step_rel(cfg, cmd, phases[3], events[3], phases[4], actions[3]));
        assert(false);
    }
    if n == 1 {
        if !terminal(phases[1]) {
            assert(false);
        }
        assert(actions[0] is Reply);
        assert(exists|k: int|
            0 <= k < actions.len() && #[trigger] actions[k] is Reply && forall|i: int|
                0 <= i < actions.len() && i != k ==> !(#[trigger] actions[i] is Reply)) by {
            assert(0 <= 0 < actions.len() && actions[0] is Reply && forall|i: int|
                0 <= i < actions.len() && i != 0 ==> !(#[trigger] actions[i] is Reply));
        }
    } else if n == 2 {
        assert(phases[1] is AwaitingMembership);
        if !terminal(phases[2]) {
            assert(false);
        }
        assert(actions[0] is FetchMembership);
        assert(actions[1] is Reply);
        assert(exists|k: int|
            0 <= k < actions.len() && #[trigger] actions[k] is Reply && forall|i: int|
                0 <= i < actions.len() && i != k ==> !(#[trigger] actions[i] is Reply)) by {
            assert(0 <= 1 < actions.len() && actions[1] is Reply && forall|i: int|
                0 <= i < actions.len() && i != 1 ==> !(#[trigger] actions[i] is Reply));
        }
    } else {
        assert(n == 3);
        assert(phases[1] is AwaitingMembership);
        assert(phases[2] is AwaitingResponse);
        assert(actions[0] is FetchMembership);
        assert(actions[1] is HttpGet);
        if phases[3] == (Phase::Failed { err: BotError::ExternalRequestFailed }) {
        } else {
            assert(phases[3] is Done);
            assert(actions[2] is Reply);
            assert(exists|k: int|
                0 <= k < actions.len() && #[trigger] actions[k] is Reply && forall|i: int|
                    0 <= i < actions.len() && i != k ==> !(#[trigger] actions[i] is Reply)) by {
                assert(0 <= 2 < actions.len() && actions[2] is Reply && forall|i: int|
                    0 <= i < actions.len() && i != 2 ==> !(#[trigger] actions[i] is Reply));
            }
        }
    }
}

} // verus!
