use vstd::prelude::*;
use crate::error::BotError;
use crate::model::{Guild, Role, is_first_match, mine_role_name, role_exists, str_eq};

verus! {

/// Resolves the guild an invocation occurred in: the invocation's
/// guild when there is one, `NotInGuild` when the command was invoked
/// outside a guild.
pub fn get_guild(guild: Option<Guild>) -> (r: Result<Guild, BotError>)
    ensures
        match guild {
            Some(g) => r == Result::<Guild, BotError>::Ok(g),
            None => r == Result::<Guild, BotError>::Err(BotError::NotInGuild),
        },
{
    match guild {
        Some(g) => Ok(g),
        None => Err(BotError::NotInGuild),
    }
}

/// Finds the position of the first role in `roles` whose name equals
/// `name` exactly; `None` exactly when no role carries that name.
pub fn find_role(roles: &Vec<Role>, name: &str) -> (r: Option<usize>)
    ensures
        match r {
            Some(i) => is_first_match(roles@, name@, i as int),
            None => !role_exists(roles@, name@),
        },
{
    let mut i: usize = 0;
    while i < roles.len()
        invariant
            i <= roles@.len(),
            forall|j: int| 0 <= j < i ==> roles@[j].name@ != name@,
        decreases roles@.len() - i,
    {
        if str_eq(roles[i].name.as_str(), name) {
            return Some(i);
        }
        i += 1;
    }
    None
}

/// Resolves the gating role: the position of the first role named
/// `"testing"` in the guild's role collection, or `RoleNotFound`
/// exactly when the guild has no such role.
pub fn get_minecraft_role(guild: &Guild) -> (r: Result<usize, BotError>)
    ensures
        r is Ok <==> role_exists(guild.roles@, mine_role_name()),
        match r {
            Ok(i) => is_first_match(guild.roles@, mine_role_name(), i as int),
            Err(e) => e == BotError::RoleNotFound,
        },
{
    match find_role(&guild.roles, "testing") {
        Some(i) => Ok(i),
        None => Err(BotError::RoleNotFound),
    }
}

/// The authorization check: whether the authoritative membership
/// snapshot `role_ids` contains `role_id`.
pub fn has_role(role_ids: &Vec<u64>, role_id: u64) -> (r: bool)
    ensures
        r == role_ids@.contains(role_id),
{
    let mut i: usize = 0;
    while i < role_ids.len()
        invariant
            i <= role_ids@.len(),
            forall|j: int| 0 <= j < i ==> role_ids@[j] != role_id,
        decreases role_ids@.len() - i,
    {
        if role_ids[i] == role_id {
            assert(role_ids@.contains(role_id));
            return true;
        }
        i += 1;
    }
    false
}

} // verus!
