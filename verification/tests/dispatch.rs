use mine_bot::auth::{find_role, get_guild, get_minecraft_role, has_role};
use mine_bot::dispatch::{
    age_reply, build_url, protected_step, Action, Event, Phase, ProtectedCommand,
};
use mine_bot::error::BotError;
use mine_bot::model::{str_eq, Config, Guild, Role, User};

fn role(id: u64, name: &str) -> Role {
    Role { id, name: String::from(name) }
}

fn guild_with_testing() -> Guild {
    Guild {
        id: 42,
        roles: vec![role(1, "admin"), role(2, "testing"), role(3, "mods")],
    }
}

fn guild_without_testing() -> Guild {
    Guild { id: 42, roles: vec![role(1, "admin"), role(3, "mods")] }
}

fn cfg() -> Config {
    Config { api_url: String::from("http://ctl.local") }
}

#[test]
fn str_eq_equal_and_unequal() {
    assert!(str_eq("testing", "testing"));
    assert!(!str_eq("testing", "Testing"));
    assert!(!str_eq("testing", "testing "));
    assert!(str_eq("", ""));
}

#[test]
fn get_guild_present() {
    let g = guild_with_testing();
    let r = get_guild(Some(g));
    assert!(matches!(r, Ok(ref g) if g.id == 42));
}

#[test]
fn get_guild_absent() {
    let r = get_guild(None);
    assert!(matches!(r, Err(BotError::NotInGuild)));
}

#[test]
fn find_role_first_match_among_duplicates() {
    let roles = vec![role(1, "admin"), role(2, "testing"), role(3, "testing")];
    assert_eq!(find_role(&roles, "testing"), Some(1));
}

#[test]
fn find_role_absent() {
    let roles = vec![role(1, "admin"), role(3, "mods")];
    assert_eq!(find_role(&roles, "testing"), None);
}

#[test]
fn get_minecraft_role_found() {
    let g = guild_with_testing();
    assert_eq!(get_minecraft_role(&g), Ok(1));
}

#[test]
fn get_minecraft_role_missing() {
    let g = guild_without_testing();
    assert_eq!(get_minecraft_role(&g), Err(BotError::RoleNotFound));
}

#[test]
fn has_role_present_and_absent() {
    let ids = vec![5, 2, 9];
    assert!(has_role(&ids, 2));
    assert!(!has_role(&ids, 4));
    assert!(!has_role(&vec![], 2));
}

#[test]
fn build_url_restart() {
    let url = build_url("http://ctl.local", ProtectedCommand::Restart);
    assert_eq!(url, "http://ctl.local/restart?container=mine-mc-1");
}

#[test]
fn build_url_healthcheck() {
    let url = build_url("http://ctl.local", ProtectedCommand::Healthcheck);
    assert_eq!(url, "http://ctl.local/healthcheck?container=mine-mc-1");
}

#[test]
fn age_reply_defaults_to_invoker() {
    let invoker = User {
        id: 1,
        name: String::from("alice"),
        created_at: String::from("2016-01-02T03:04:05Z"),
    };
    let r = age_reply(&invoker, &None);
    assert_eq!(r, "alice's account was created at 2016-01-02T03:04:05Z");
}

#[test]
fn age_reply_names_target() {
    let invoker = User {
        id: 1,
        name: String::from("alice"),
        created_at: String::from("2016-01-02T03:04:05Z"),
    };
    let target = User {
        id: 2,
        name: String::from("bob"),
        created_at: String::from("2020-06-07T08:09:10Z"),
    };
    let r = age_reply(&invoker, &Some(target));
    assert_eq!(r, "bob's account was created at 2020-06-07T08:09:10Z");
}

#[test]
fn outside_guild_replies_and_stops() {
    let (phase, action) = protected_step(
        &cfg(),
        ProtectedCommand::Restart,
        Phase::Start,
        Event::Invoke { invoker_id: 7, guild: None },
    );
    assert_eq!(phase, Phase::Failed { err: BotError::NotInGuild });
    match action {
        Action::Reply { text } => assert_eq!(text, "You are not a member of this server"),
        _ => panic!("expected a reply"),
    }
}

#[test]
fn role_missing_replies_and_no_request() {
    let (phase, action) = protected_step(
        &cfg(),
        ProtectedCommand::Restart,
        Phase::Start,
        Event::Invoke { invoker_id: 7, guild: Some(guild_without_testing()) },
    );
    assert_eq!(phase, Phase::Failed { err: BotError::RoleNotFound });
    match action {
        Action::Reply { text } => assert_eq!(text, "The Minecraft role does not exist"),
        _ => panic!("expected a reply"),
    }
}

#[test]
fn unauthorized_replies_and_no_request() {
    let (phase, action) = protected_step(
        &cfg(),
        ProtectedCommand::Restart,
        Phase::Start,
        Event::Invoke { invoker_id: 7, guild: Some(guild_with_testing()) },
    );
    assert_eq!(
        phase,
        Phase::AwaitingMembership { guild_id: 42, invoker_id: 7, role_id: 2 },
    );
    assert!(matches!(action, Action::FetchMembership { guild_id: 42, user_id: 7 }));

    let (phase, action) = protected_step(
        &cfg(),
        ProtectedCommand::Restart,
        phase,
        Event::Membership { role_ids: vec![1, 3] },
    );
    assert_eq!(phase, Phase::Failed { err: BotError::Unauthorized });
    match action {
        Action::Reply { text } => assert_eq!(text, "You do not have the Minecraft role"),
        _ => panic!("expected a reply"),
    }
}

#[test]
fn authorized_restart_requests_and_relays_body() {
    let config = cfg();
    let (phase, action) = protected_step(
        &config,
        ProtectedCommand::Restart,
        Phase::Start,
        Event::Invoke { invoker_id: 7, guild: Some(guild_with_testing()) },
    );
    assert!(matches!(action, Action::FetchMembership { guild_id: 42, user_id: 7 }));

    let (phase, action) = protected_step(
        &config,
        ProtectedCommand::Restart,
        phase,
        Event::Membership { role_ids: vec![1, 2, 3] },
    );
    assert_eq!(phase, Phase::AwaitingResponse);
    match action {
        Action::HttpGet { url } => {
            assert_eq!(url, "http://ctl.local/restart?container=mine-mc-1")
        }
        _ => panic!("expected a request"),
    }

    let (phase, action) = protected_step(
        &config,
        ProtectedCommand::Restart,
        phase,
        Event::Response { body: String::from("restarting...") },
    );
    assert_eq!(phase, Phase::Done);
    match action {
        Action::Reply { text } => assert_eq!(text, "restarting..."),
        _ => panic!("expected a reply"),
    }
}

#[test]
fn authorized_healthcheck_targets_healthcheck_path() {
    let config = cfg();
    let (phase, _) = protected_step(
        &config,
        ProtectedCommand::Healthcheck,
        Phase::Start,
        Event::Invoke { invoker_id: 7, guild: Some(guild_with_testing()) },
    );
    let (phase, action) = protected_step(
        &config,
        ProtectedCommand::Healthcheck,
        phase,
        Event::Membership { role_ids: vec![2] },
    );
    assert_eq!(phase, Phase::AwaitingResponse);
    match action {
        Action::HttpGet { url } => {
            assert_eq!(url, "http://ctl.local/healthcheck?container=mine-mc-1")
        }
        _ => panic!("expected a request"),
    }

    let (phase, action) = protected_step(
        &config,
        ProtectedCommand::Healthcheck,
        phase,
        Event::Response { body: String::from("ok") },
    );
    assert_eq!(phase, Phase::Done);
    match action {
        Action::Reply { text } => assert_eq!(text, "ok"),
        _ => panic!("expected a reply"),
    }
}

#[test]
fn failed_request_stops_without_reply() {
    let config = cfg();
    let (phase, _) = protected_step(
        &config,
        ProtectedCommand::Restart,
        Phase::Start,
        Event::Invoke { invoker_id: 7, guild: Some(guild_with_testing()) },
    );
    let (phase, _) = protected_step(
        &config,
        ProtectedCommand::Restart,
        phase,
        Event::Membership { role_ids: vec![2] },
    );
    let (phase, action) = protected_step(
        &config,
        ProtectedCommand::Restart,
        phase,
        Event::RequestFailed,
    );
    assert_eq!(phase, Phase::Failed { err: BotError::ExternalRequestFailed });
    assert!(matches!(action, Action::Stop));
}
