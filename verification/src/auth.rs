//! Who may use the commands that show what the bot did.

use vstd::prelude::*;
use crate::config::UserIds;
use crate::run_history::RunQueryScope;
use crate::text;
use crate::text::{opt_str, opt_text};

verus! {

/// What a caller without access is told.
pub const RESTRICTED_COMMAND_MESSAGE: &'static str =
    "This command is restricted to server administrators and configured bot owners.";

/// On what ground a caller has access.
#[verifier::ext_equal]
#[derive(Clone, Debug, PartialEq, Eq)]
pub enum SensitiveCommandAccess<T = String> {
    Owner,
    GuildAdministrator { guild_id: T },
}

impl View for SensitiveCommandAccess<String> {
    type V = SensitiveCommandAccess<Seq<char>>;

    open spec fn view(&self) -> SensitiveCommandAccess<Seq<char>> {
        match *self {
            SensitiveCommandAccess::Owner => SensitiveCommandAccess::Owner,
            SensitiveCommandAccess::GuildAdministrator { guild_id } => {
                SensitiveCommandAccess::GuildAdministrator { guild_id: guild_id@ }
            },
        }
    }
}

/// The view of an optional access.
pub open spec fn opt_access(value: Option<SensitiveCommandAccess>) -> Option<SensitiveCommandAccess<Seq<char>>> {
    match value {
        Some(access) => Some(access@),
        None => None,
    }
}

/// Whether a role list makes a member an administrator: the owner of the guild,
/// or a member with a role that is one.
pub fn is_administrator(owns_guild: bool, role_is_administrator: &Vec<bool>) -> (r: bool)
    ensures
        r == (owns_guild || role_is_administrator@.contains(true)),
{
    if owns_guild {
        return true;
    }
    let mut i: usize = 0;
    while i < role_is_administrator.len()
        invariant
            i <= role_is_administrator@.len(),
            forall|j: int| 0 <= j < i ==> !(#[trigger] role_is_administrator@[j]),
        decreases role_is_administrator@.len() - i,
    {
        if role_is_administrator[i] {
            assert(role_is_administrator@[i as int]);
            return true;
        }
        i += 1;
    }
    false
}

/// Whether a caller may use the restricted commands.
pub open spec fn is_authorized(
    owners: Set<Seq<char>>,
    user_id: Seq<char>,
    in_guild: bool,
    has_administrator: bool,
) -> bool {
    owners.contains(user_id) || (in_guild && has_administrator)
}

/// Whether a caller may use the restricted commands.
pub fn is_sensitive_command_authorized(
    owner_user_ids: &UserIds,
    user_id: &str,
    in_guild: bool,
    has_administrator: bool,
) -> (r: bool)
    ensures
        r == is_authorized(owner_user_ids@, user_id@, in_guild, has_administrator),
{
    owner_user_ids.contains(user_id) || (in_guild && has_administrator)
}

/// The access of a caller: as owner, or else as administrator of the guild in
/// which the command was given.
pub open spec fn access_for(
    owners: Set<Seq<char>>,
    user_id: Seq<char>,
    guild_id: Option<Seq<char>>,
    has_administrator: bool,
) -> Option<SensitiveCommandAccess<Seq<char>>> {
    if owners.contains(user_id) {
        Some(SensitiveCommandAccess::Owner)
    } else if has_administrator && guild_id is Some {
        Some(SensitiveCommandAccess::GuildAdministrator { guild_id: guild_id->0 })
    } else {
        None
    }
}

/// The access of a caller: as owner, or else as administrator of the guild in
/// which the command was given.
pub fn sensitive_command_access_for(
    owner_user_ids: &UserIds,
    user_id: &str,
    guild_id: Option<&str>,
    has_administrator: bool,
) -> (r: Option<SensitiveCommandAccess>)
    ensures
        opt_access(r) == access_for(owner_user_ids@, user_id@, opt_str(guild_id), has_administrator),
{
    if owner_user_ids.contains(user_id) {
        return Some(SensitiveCommandAccess::Owner);
    }
    if has_administrator {
        if let Some(id) = guild_id {
            return Some(SensitiveCommandAccess::GuildAdministrator { guild_id: id.to_owned() });
        }
    }
    None
}

/// A caller is given access exactly where authorized; in a direct message only
/// owners are; and an administrator's access is confined to their own guild.
pub proof fn access_is_given_to_the_authorized(
    owners: Set<Seq<char>>,
    user_id: Seq<char>,
    guild_id: Option<Seq<char>>,
    has_administrator: bool,
)
    ensures
        access_for(owners, user_id, guild_id, has_administrator) is Some <==> is_authorized(
            owners,
            user_id,
            guild_id is Some,
            has_administrator,
        ),
        guild_id is None ==> (access_for(owners, user_id, guild_id, has_administrator) is Some
            <==> owners.contains(user_id)),
        access_for(owners, user_id, guild_id, has_administrator) matches Some(
            SensitiveCommandAccess::GuildAdministrator { guild_id: own },
        ) ==> guild_id == Some(own),
{
}

/// The runs that a caller may ask about: all for an owner, those of the guild
/// for its administrator.
pub open spec fn scope_of(access: SensitiveCommandAccess<Seq<char>>) -> RunQueryScope<Seq<char>> {
    match access {
        SensitiveCommandAccess::Owner => RunQueryScope::All,
        SensitiveCommandAccess::GuildAdministrator { guild_id } => RunQueryScope::Guild(guild_id),
    }
}

/// The runs that a caller may ask about: all for an owner, those of the guild
/// for its administrator.
pub fn run_query_scope(access: &SensitiveCommandAccess) -> (r: RunQueryScope)
    ensures
        r@ == scope_of(access@),
{
    match access {
        SensitiveCommandAccess::Owner => RunQueryScope::All,
        SensitiveCommandAccess::GuildAdministrator { guild_id } => RunQueryScope::Guild(
            guild_id.clone(),
        ),
    }
}

/// Whether a caller may see a run of that guild.
pub fn can_view_active_run(access: &SensitiveCommandAccess, active_guild_id: &Option<String>) -> (r: bool)
    ensures
        r == scope_of(access@).allows(opt_text(*active_guild_id)),
{
    match access {
        SensitiveCommandAccess::Owner => true,
        SensitiveCommandAccess::GuildAdministrator { guild_id } => match active_guild_id {
            Some(active) => text::same(active.as_str(), guild_id.as_str()),
            None => false,
        },
    }
}

} // verus!
