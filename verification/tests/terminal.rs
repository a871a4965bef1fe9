use butler::minecraft::ServerStatus;
use butler::run_history::RunContext;
use butler::terminal;
use butler::terminal::{
    ansi_enabled, brief_minecraft_status, clean, debug_enabled, format_duration,
    line_for_context, quote, ready, slash_command_name, Console,
};

const PLAIN: Console = Console { epoch_secs: 3_661, color: false };

#[test]
fn durations_use_their_largest_unit() {
    assert_eq!(format_duration(999), "999ms");
    assert_eq!(format_duration(59_999), "59s");
    assert_eq!(format_duration(60_000), "1m");
    assert_eq!(format_duration(61_500), "1m1s");
}

#[test]
fn cleaned_values_are_one_short_line() {
    assert_eq!(clean("  a \n\"b\"\tc "), "a 'b' c");
    let long = clean(&"x".repeat(500));
    assert_eq!(long.chars().count(), 160);
    assert!(long.ends_with("..."));
    assert_eq!(clean(&"y".repeat(160)), "y".repeat(160));
    assert_eq!(quote("a \"b\""), "\"a 'b'\"");
}

#[test]
fn lines_hold_their_parts() {
    assert_eq!(
        terminal::line(&PLAIN, "OK", "/ping", "al ice", "My \"Guild\"", Some("ops room"), " done "),
        "01:01 OK    /ping @al-ice \"My 'Guild'\" #ops-room done"
    );
    assert_eq!(ready(&PLAIN, "Butler"), "01:01 READY @Butler");
    assert!(terminal::line(&PLAIN, "FAIL", "", "", "", None, "x").starts_with('\n'));
    let painted = terminal::line(&Console { epoch_secs: 0, color: true }, "OK", "", "", "", None, "");
    assert_eq!(painted, "\u{1b}[2m00:00\u{1b}[0m \u{1b}[1m\u{1b}[32mOK   \u{1b}[0m");
}

#[test]
fn lines_about_commands_name_the_caller() {
    let context = RunContext {
        run_id: "abc123".to_string(),
        command: "server.start".to_string(),
        provider: "aternos".to_string(),
        guild_id: None,
        guild_name: "DM".to_string(),
        channel_id: "1".to_string(),
        channel_name: None,
        user_id: "2".to_string(),
        user_name: "alice".to_string(),
    };
    assert_eq!(
        line_for_context(&PLAIN, "WARN", &context, "abc123 oops"),
        "01:01 WARN  /server start @alice \"DM\" abc123 oops"
    );
    assert_eq!(slash_command_name("bot.last-error"), "/bot last-error");
}

#[test]
fn statuses_are_briefly_told() {
    assert_eq!(brief_minecraft_status(&ServerStatus::Queued), "Queued");
    assert_eq!(
        brief_minecraft_status(&ServerStatus::Unreachable { reason: "x".to_string() }),
        "Offline"
    );
    assert_eq!(
        brief_minecraft_status(&ServerStatus::Online { online: 3, max: 20, players: vec![] }),
        "Online 3/20"
    );
}

#[test]
fn colors_and_debug_lines_follow_the_environment() {
    assert!(ansi_enabled(false, None, None));
    assert!(!ansi_enabled(true, None, None));
    assert!(!ansi_enabled(false, Some("DUMB"), None));
    assert!(!ansi_enabled(false, Some("xterm"), Some(" off ")));
    assert!(debug_enabled(Some(" Debug ")));
    assert!(!debug_enabled(Some("info")));
    assert!(!debug_enabled(None));
}

#[test]
fn cleaning_twice_changes_nothing() {
    let spread = " x".repeat(200);
    for value in ["", "  a \n\"b\"\tc ", spread.as_str(), &format!("{} y", "z".repeat(400))] {
        let once = clean(value);
        assert_eq!(clean(&once), once);
        assert!(!once.contains("  "));
        assert_eq!(once.trim(), once);
    }
    let cut = clean(&spread);
    assert_eq!(cut, format!("{}...", &"x ".repeat(200)[..157]));
    let ends_in_a_space = clean(&format!("{} {}", "x".repeat(156), "y".repeat(9)));
    assert_eq!(ends_in_a_space, format!("{} ...", "x".repeat(156)));
    assert_eq!(clean(&ends_in_a_space), ends_in_a_space);
}
