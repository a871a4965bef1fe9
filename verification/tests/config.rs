use butler::config::{
    bounded_positive_u64_var_value, parse_artifact_capture_value, parse_bool_value,
    parse_flaresolverr_url, parse_owner_user_ids_value, parse_panel_origin, parse_provider_kind,
    parse_pterodactyl_server_id, u64_var_value, usize_var_value, valid_container_name,
    ArtifactCapture, ServerProviderKind,
};
use butler::environment::{Config, Environment, ProviderConfig};
use butler::server_service::status::settings_of;

#[test]
fn parses_owner_user_ids() {
    let ids = parse_owner_user_ids_value("123, 456,,789").unwrap();
    assert_eq!(ids.len(), 3);
    assert!(ids.contains("123"));
    assert!(ids.contains("456"));
    assert!(ids.contains("789"));
}

#[test]
fn repeated_owner_user_ids_count_once() {
    let ids = parse_owner_user_ids_value("123,123").unwrap();
    assert_eq!(ids.len(), 1);
    assert!(parse_owner_user_ids_value(" , ").unwrap().is_empty());
}

#[test]
fn rejects_invalid_owner_user_ids() {
    let error = parse_owner_user_ids_value("123,abc").unwrap_err();
    assert!(error.to_string().contains("invalid Discord user ID"));
}

#[test]
fn parses_artifact_capture_modes() {
    assert_eq!(parse_artifact_capture_value("").unwrap(), ArtifactCapture::Screenshots);
    assert_eq!(parse_artifact_capture_value("screenshots").unwrap(), ArtifactCapture::Screenshots);
    assert_eq!(parse_artifact_capture_value("full").unwrap(), ArtifactCapture::Full);
    assert_eq!(parse_artifact_capture_value("failure").unwrap(), ArtifactCapture::Failure);
    assert_eq!(parse_artifact_capture_value("off").unwrap(), ArtifactCapture::Off);
    assert!(parse_artifact_capture_value("html").is_err());
}

#[test]
fn artifact_capture_default_is_screenshots() {
    assert!(ArtifactCapture::Screenshots.capture_success_screenshot());
    assert!(!ArtifactCapture::Screenshots.capture_success_html());
    assert!(ArtifactCapture::Screenshots.capture_failure_screenshot());
    assert!(ArtifactCapture::Screenshots.capture_failure_html());
}

#[test]
fn artifact_capture_modes_capture_what_they_say() {
    assert!(ArtifactCapture::Full.capture_success_html());
    assert!(!ArtifactCapture::Failure.capture_success_screenshot());
    assert!(ArtifactCapture::Failure.capture_failure_screenshot());
    assert!(!ArtifactCapture::Off.capture_failure_html());
    assert_eq!(ArtifactCapture::Failure.to_string(), "failure");
}

#[test]
fn screenshot_attachment_default_is_enabled() {
    assert!(parse_bool_value(None, true).unwrap());
    assert!(!parse_bool_value(Some("false"), true).unwrap());
}

#[test]
fn rejects_invalid_boolean_values() {
    let error = parse_bool_value(Some("fales"), true).unwrap_err();
    assert!(error.to_string().contains("invalid boolean value"));
}

#[test]
fn parses_strict_numeric_values() {
    assert_eq!(u64_var_value(Some("42"), 600).unwrap(), 42);
    assert_eq!(u64_var_value(None, 600).unwrap(), 600);
    assert!(u64_var_value(Some("soon"), 600).is_err());
    assert_eq!(usize_var_value(Some("3"), 20).unwrap(), 3);
    assert_eq!(usize_var_value(None, 20).unwrap(), 20);
    assert!(usize_var_value(Some("many"), 20).is_err());
    assert_eq!(bounded_positive_u64_var_value(None, 1_200, 3_600).unwrap(), 1_200);
    assert_eq!(bounded_positive_u64_var_value(Some("900"), 1_200, 3_600).unwrap(), 900);
    assert!(bounded_positive_u64_var_value(Some("0"), 1_200, 3_600).is_err());
    assert!(bounded_positive_u64_var_value(Some("3601"), 1_200, 3_600).is_err());
    assert!(bounded_positive_u64_var_value(Some("never"), 1_200, 3_600).is_err());
}

#[test]
fn parses_required_provider_kind() {
    assert_eq!(parse_provider_kind("aternos").unwrap(), ServerProviderKind::Aternos);
    assert_eq!(parse_provider_kind(" PTERODACTYL ").unwrap(), ServerProviderKind::Pterodactyl);
    assert!(parse_provider_kind("automatic").is_err());
}

#[test]
fn validates_panel_origin() {
    assert_eq!(
        parse_panel_origin("https://panel.play.hosting").unwrap().as_str(),
        "https://panel.play.hosting/"
    );
    assert!(parse_panel_origin("http://panel.play.hosting").is_err());
    assert!(parse_panel_origin("https://user@example.com").is_err());
    assert!(parse_panel_origin("https://example.com/account").is_err());
    assert!(parse_panel_origin("not a url").is_err());
    assert!(parse_panel_origin("https://example.com/?a=b").is_err());
}

#[test]
fn validates_loopback_flaresolverr_url() {
    assert_eq!(
        parse_flaresolverr_url("http://127.0.0.1:8191").unwrap().as_str(),
        "http://127.0.0.1:8191/"
    );
    assert!(parse_flaresolverr_url("http://localhost:8191").is_ok());
    assert!(parse_flaresolverr_url("http://192.168.1.5:8191").is_err());
    assert!(parse_flaresolverr_url("https://127.0.0.1:8191").is_err());
}

#[test]
fn validates_pterodactyl_server_identifier() {
    assert_eq!(parse_pterodactyl_server_id("34634dd7").unwrap(), "34634dd7");
    assert!(parse_pterodactyl_server_id("../server").is_err());
    assert!(parse_pterodactyl_server_id("server name").is_err());
    assert!(parse_pterodactyl_server_id("").is_err());
}

#[test]
fn container_names_are_checked() {
    assert!(valid_container_name("flaresolverr"));
    assert!(!valid_container_name("a b"));
    assert!(!valid_container_name(""));
}

fn environment(vars: &[(&str, &str)]) -> Environment {
    Environment {
        vars: vars.iter().map(|(name, value)| (name.to_string(), value.to_string())).collect(),
    }
}

#[test]
fn unset_settings_have_safe_defaults() {
    let config = Config::from_env(&environment(&[
        ("DISCORD_TOKEN", "token"),
        ("SERVER_PROVIDER", "pterodactyl"),
        ("PTERODACTYL_PANEL_URL", "https://panel.play.hosting"),
        ("PTERODACTYL_SERVER_ID", "34634dd7"),
        ("PTERODACTYL_API_TOKEN", "ptlc"),
    ]))
    .unwrap();
    assert!(config.persist_run_events);
    assert!(config.redact_run_events);
    assert!(config.attach_screenshots);
    assert_eq!(config.run_history_limit, 20);
    assert_eq!(config.start_wait_online_secs, 600);
    assert_eq!(config.minecraft_server_addr, "localhost:25565");
    assert_eq!(config.artifact_dir, "artifacts/runs");
    assert!(config.owner_user_ids.is_empty());
    match config.provider {
        ProviderConfig::Pterodactyl(provider) => {
            assert!(!provider.power_enabled);
            assert_eq!(provider.allocation_wait_secs, 1_200);
            assert_eq!(provider.panel_origin.as_str(), "https://panel.play.hosting/");
        }
        ProviderConfig::Aternos(_) => panic!("expected the panel"),
    }
}

#[test]
fn missing_settings_are_named() {
    let error = Config::from_env(&environment(&[])).unwrap_err();
    assert!(error.to_string().contains("DISCORD_TOKEN"));
    let error = Config::from_env(&environment(&[
        ("DISCORD_TOKEN", "token"),
        ("SERVER_PROVIDER", "aternos"),
        ("ATERNOS_USER", "user"),
    ]))
    .unwrap_err();
    assert!(error.to_string().contains("ATERNOS_PASS"));
}

#[test]
fn provider_states_are_kept_unless_nothing_is() {
    assert!(ArtifactCapture::Screenshots.capture_provider_state());
    assert!(ArtifactCapture::Full.capture_provider_state());
    assert!(ArtifactCapture::Failure.capture_provider_state());
    assert!(!ArtifactCapture::Off.capture_provider_state());
}

#[test]
fn diagnoses_show_the_settings_of_either_provider() {
    let panel = Config::from_env(&environment(&[
        ("DISCORD_TOKEN", "token"),
        ("SERVER_PROVIDER", "pterodactyl"),
        ("PTERODACTYL_PANEL_URL", "https://panel.play.hosting"),
        ("PTERODACTYL_SERVER_ID", "34634dd7"),
        ("PTERODACTYL_API_TOKEN", "ptlc"),
        ("MINECRAFT_SERVER_ADDR", "example.com"),
        ("BUTLER_OWNER_IDS", "12,34,12"),
    ]))
    .unwrap();
    let shown = settings_of(&panel);
    assert_eq!(shown.server_id.as_deref(), Some("34634dd7"));
    assert!(shown.headless);
    assert_eq!(shown.minecraft_server_addr, panel.minecraft_server_addr);
    assert_eq!(shown.artifact_dir, panel.artifact_dir);
    assert_eq!(shown.owners, 2);

    let aternos = Config::from_env(&environment(&[
        ("DISCORD_TOKEN", "token"),
        ("SERVER_PROVIDER", "aternos"),
        ("ATERNOS_USER", "user"),
        ("ATERNOS_PASS", "pass"),
        ("HEADLESS", "false"),
        ("MINECRAFT_SERVER_ADDR", "example.com"),
    ]))
    .unwrap();
    let shown = settings_of(&aternos);
    assert_eq!(shown.server_id, None);
    assert!(!shown.headless);
    assert_eq!(shown.owners, 0);
}
