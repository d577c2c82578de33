use vstd::prelude::*;
use vstd::string::*;
use crate::error::BotError;
use crate::model::{Config, Guild, User, is_first_match, mine_role_name, role_exists};
use crate::auth::{get_minecraft_role, has_role};

verus! {

/// The two protected commands that proxy to the remote control API.
#[derive(Clone, Copy, Debug, PartialEq, Eq, Structural)]
pub enum ProtectedCommand {
    Restart,
    Healthcheck,
}

/// URL path of the control-API endpoint a command targets.
pub open spec fn path_of(cmd: ProtectedCommand) -> Seq<char> {
    match cmd {
        ProtectedCommand::Restart => "/restart"@,
        ProtectedCommand::Healthcheck => "/healthcheck"@,
    }
}

/// Query string appended literally to every control-API URL.
pub open spec fn mine_query() -> Seq<char> {
    "?container=mine-mc-1"@
}

/// Reply sent when the command was invoked outside a guild.
pub open spec fn not_in_guild_reply() -> Seq<char> {
    "You are not a member of this server"@
}

/// Reply sent when the guild lacks the gating role.
pub open spec fn role_missing_reply() -> Seq<char> {
    "The Minecraft role does not exist"@
}

/// Reply sent when the invoking user does not hold the gating role.
pub open spec fn unauthorized_reply() -> Seq<char> {
    "You do not have the Minecraft role"@
}

/// What the gateway hands a protected-command invocation, in the order
/// the flow asks for it.
pub enum Event {
    /// The command was invoked: the invoking user's id, and the guild
    /// the invocation occurred in, if any.
    Invoke { invoker_id: u64, guild: Option<Guild> },
    /// The authoritative membership snapshot arrived: the ids of the
    /// roles the invoking user currently holds in the guild.
    Membership { role_ids: Vec<u64> },
    /// The control API answered, with this body.
    Response { body: String },
    /// The outward call to the control API failed.
    RequestFailed,
}

/// The state of one protected-command invocation.
#[derive(Clone, Copy, Debug, PartialEq, Eq, Structural)]
pub enum Phase {
    /// Nothing has happened yet.
    Start,
    /// Guild and gating role are resolved; the authoritative membership
    /// snapshot for `invoker_id` in `guild_id` is awaited.
    AwaitingMembership { guild_id: u64, invoker_id: u64, role_id: u64 },
    /// The user is authorized; the control API's response is awaited.
    AwaitingResponse,
    /// The response body was relayed; the invocation succeeded.
    Done,
    /// The invocation failed with this error.
    Failed { err: BotError },
}

/// What the caller must do next on behalf of the invocation.
pub enum Action {
    /// Send exactly this text as the invocation's reply.
    Reply { text: String },
    /// Fetch a fresh membership snapshot of `user_id` in `guild_id`
    /// and hand it back as `Event::Membership`.
    FetchMembership { guild_id: u64, user_id: u64 },
    /// Issue one GET request to `url` and hand the outcome back as
    /// `Event::Response` or `Event::RequestFailed`.
    HttpGet { url: String },
    /// Nothing: the invocation is over without a further reply.
    Stop,
}

/// Which event a phase can take next: `Start` awaits the invocation,
/// `AwaitingMembership` the snapshot, `AwaitingResponse` the outcome of
/// the outward call; `Done` and `Failed` are terminal.
pub open spec fn phase_accepts(phase: Phase, event: Event) -> bool {
    match (phase, event) {
        (Phase::Start, Event::Invoke { .. }) => true,
        (Phase::AwaitingMembership { .. }, Event::Membership { .. }) => true,
        (Phase::AwaitingResponse, Event::Response { .. }) => true,
        (Phase::AwaitingResponse, Event::RequestFailed) => true,
        _ => false,
    }
}

/// The transition relation of the protected-command flow: from phase
/// `pre`, event `ev` leads to phase `post` and obliges action `act`.
/// It holds of no pair that `phase_accepts` refuses.
pub open spec fn step_rel(
    cfg: Config,
    cmd: ProtectedCommand,
    pre: Phase,
    ev: Event,
    post: Phase,
    act: Action,
) -> bool {
    match (pre, ev) {
        (Phase::Start, Event::Invoke { invoker_id, guild }) => match guild {
            None => {
                &&& post == (Phase::Failed { err: BotError::NotInGuild })
                &&& act matches Action::Reply { text } && text@ == not_in_guild_reply()
            },
            Some(g) => {
                if role_exists(g.roles@, mine_role_name()) {
                    &&& exists|i: int|
                        #[trigger] is_first_match(g.roles@, mine_role_name(), i)
                        && post == (Phase::AwaitingMembership {
                            guild_id: g.id,
                            invoker_id,
                            role_id: g.roles@[i].id,
                        })
                    &&& act == (Action::FetchMembership { guild_id: g.id, user_id: invoker_id })
                } else {
                    &&& post == (Phase::Failed { err: BotError::RoleNotFound })
                    &&& act matches Action::Reply { text } && text@ == role_missing_reply()
                }
            },
        },
        (Phase::AwaitingMembership { guild_id: _, invoker_id: _, role_id }, Event::Membership { role_ids }) => {
            if role_ids@.contains(role_id) {
                &&& post == Phase::AwaitingResponse
                &&& act matches Action::HttpGet { url }
                    && url@ == cfg.api_url@ + path_of(cmd) + mine_query()
            } else {
                &&& post == (Phase::Failed { err: BotError::Unauthorized })
                &&& act matches Action::Reply { text } && text@ == unauthorized_reply()
            }
        },
        (Phase::AwaitingResponse, Event::Response { body }) => {
            &&& post == Phase::Done
            &&& act matches Action::Reply { text } && text@ == body@
        },
        (Phase::AwaitingResponse, Event::RequestFailed) => {
            &&& post == (Phase::Failed { err: BotError::ExternalRequestFailed })
            &&& act == Action::Stop
        },
        _ => false,
    }
}

/// Builds the control-API URL: the base URL, the command's path, and
/// the fixed container query, concatenated literally.
pub fn build_url(api_url: &str, cmd: ProtectedCommand) -> (url: String)
    ensures
        url@ == api_url@ + path_of(cmd) + mine_query(),
{
    let base = String::from_str(api_url);
    let with_path = match cmd {
        ProtectedCommand::Restart => base.concat("/restart"),
        ProtectedCommand::Healthcheck => base.concat("/healthcheck"),
    };
    with_path.concat("?container=mine-mc-1")
}

/// The textual reply of the `age` command: names the explicitly
/// selected user if one was given, the invoking user otherwise, and
/// states that user's account-creation timestamp.
pub fn age_reply(invoker: &User, target: &Option<User>) -> (r: String)
    ensures
        match target {
            Some(u) => r@ == u.name@ + "'s account was created at "@ + u.created_at@,
            None => r@ == invoker.name@ + "'s account was created at "@ + invoker.created_at@,
        },
{
    let u = match target {
        Some(u) => u,
        None => invoker,
    };
    String::from_str(u.name.as_str()).concat("'s account was created at ").concat(
        u.created_at.as_str(),
    )
}

/// One step of a protected-command invocation: takes the phase the
/// invocation is in and the event that arrived, and returns the next
/// phase together with the one action now owed, as `step_rel` states.
pub fn protected_step(cfg: &Config, cmd: ProtectedCommand, phase: Phase, event: Event) -> (r: (
    Phase,
    Action,
))
    requires
        phase_accepts(phase, event),
    ensures
        step_rel(*cfg, cmd, phase, event, r.0, r.1),
{
    match (phase, event) {
        (Phase::Start, Event::Invoke { invoker_id, guild }) => match guild {
            None => (
                Phase::Failed { err: BotError::NotInGuild },
                Action::Reply { text: String::from_str("You are not a member of this server") },
            ),
            Some(g) => match get_minecraft_role(&g) {
                Ok(i) => {
                    let role_id = g.roles[i].id;
                    (
                        Phase::AwaitingMembership { guild_id: g.id, invoker_id, role_id },
                        Action::FetchMembership { guild_id: g.id, user_id: invoker_id },
                    )
                },
                Err(_) => (
                    Phase::Failed { err: BotError::RoleNotFound },
                    Action::Reply { text: String::from_str("The Minecraft role does not exist") },
                ),
            },
        },
        (Phase::AwaitingMembership { guild_id: _, invoker_id: _, role_id }, Event::Membership { role_ids }) => {
            if has_role(&role_ids, role_id) {
                (
                    Phase::AwaitingResponse,
                    Action::HttpGet { url: build_url(cfg.api_url.as_str(), cmd) },
                )
            } else {
                (
                    Phase::Failed { err: BotError::Unauthorized },
                    Action::Reply { text: String::from_str("You do not have the Minecraft role") },
                )
            }
        },
        (Phase::AwaitingResponse, Event::Response { body }) => (
            Phase::Done,
            Action::Reply { text: body },
        ),
        (Phase::AwaitingResponse, Event::RequestFailed) => (
            Phase::Failed { err: BotError::ExternalRequestFailed },
            Action::Stop,
        ),
        _ => {
            proof {
                assert(false);
            }
            (Phase::Done, Action::Stop)
        },
    }
}

} // verus!
