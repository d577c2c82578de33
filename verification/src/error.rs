use vstd::prelude::*;

verus! {

/// The closed set of failures an invocation can end in.
#[derive(Clone, Copy, Debug, PartialEq, Eq, Structural)]
pub enum BotError {
    /// The command was invoked outside a guild.
    NotInGuild,
    /// The guild has no role with the configured name.
    RoleNotFound,
    /// The invoking user does not hold the gating role.
    Unauthorized,
    /// The outward call to the control API failed.
    ExternalRequestFailed,
}

} // verus!
