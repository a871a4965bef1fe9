use butler::auth::{
    can_view_active_run, is_administrator, is_sensitive_command_authorized, run_query_scope,
    sensitive_command_access_for, SensitiveCommandAccess, RESTRICTED_COMMAND_MESSAGE,
};
use butler::config::UserIds;
use butler::run_history::RunQueryScope;

fn owners(ids: &[&str]) -> UserIds {
    let mut set = UserIds::new();
    for id in ids {
        set = set.with(id.to_string());
    }
    set
}

#[test]
fn owner_is_authorized_in_guild_without_admin() {
    assert!(is_sensitive_command_authorized(&owners(&["42"]), "42", true, false));
    assert_eq!(
        sensitive_command_access_for(&owners(&["42"]), "42", Some("guild-1"), false),
        Some(SensitiveCommandAccess::Owner)
    );
}

#[test]
fn administrator_is_authorized_in_guild() {
    assert!(is_sensitive_command_authorized(&owners(&[]), "42", true, true));
    assert_eq!(
        sensitive_command_access_for(&owners(&[]), "42", Some("guild-1"), true),
        Some(SensitiveCommandAccess::GuildAdministrator { guild_id: "guild-1".to_string() })
    );
}

#[test]
fn non_admin_non_owner_is_denied_in_guild() {
    assert!(!is_sensitive_command_authorized(&owners(&["7"]), "42", true, false));
    assert_eq!(
        sensitive_command_access_for(&owners(&["7"]), "42", Some("guild-1"), false),
        None
    );
}

#[test]
fn dm_authorizes_owners_only() {
    assert!(is_sensitive_command_authorized(&owners(&["42"]), "42", false, false));
    assert!(!is_sensitive_command_authorized(&owners(&[]), "42", false, true));
    assert_eq!(sensitive_command_access_for(&owners(&[]), "42", None, true), None);
}

#[test]
fn administrators_are_guild_owners_or_have_an_administrator_role() {
    assert!(is_administrator(true, &vec![]));
    assert!(is_administrator(false, &vec![false, true]));
    assert!(!is_administrator(false, &vec![false, false]));
    assert!(RESTRICTED_COMMAND_MESSAGE.contains("restricted"));
}

#[test]
fn access_decides_the_scope() {
    let admin = SensitiveCommandAccess::GuildAdministrator { guild_id: "guild-1".to_string() };
    assert_eq!(run_query_scope(&SensitiveCommandAccess::Owner), RunQueryScope::All);
    assert_eq!(run_query_scope(&admin), RunQueryScope::Guild("guild-1".to_string()));
    assert!(can_view_active_run(&admin, &Some("guild-1".to_string())));
    assert!(!can_view_active_run(&admin, &Some("guild-2".to_string())));
    assert!(!can_view_active_run(&admin, &None));
    assert!(can_view_active_run(&SensitiveCommandAccess::Owner, &None));
}
