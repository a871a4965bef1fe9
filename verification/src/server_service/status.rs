//! The commands that show where the server and the bot stand.

use vstd::prelude::*;
use crate::auth::{can_view_active_run, scope_of, SensitiveCommandAccess};
use crate::config::ArtifactCapture;
use crate::environment::{Config, ProviderConfig};
use crate::minecraft::{status_text, ServerStatus};
use crate::server_service::queries::Answer;
use crate::server_service::tracking::{elapsed, elapsed_ms};
use crate::state::{opt_active, ActiveStartRun};
use crate::terminal;
use crate::terminal::{brief_status, cleaned, duration_text, line_text, quoted, Console};
use crate::text;
use crate::text::{decimal, opt_str, opt_text};

verus! {

/// What a contract sees of a look at the server.
pub type Look = Result<ServerStatus<Seq<char>, Seq<Seq<char>>>, Seq<char>>;

/// The view of a look at the server.
pub open spec fn look_of(status: Result<ServerStatus, String>) -> Look {
    match status {
        Ok(status) => Ok(status@),
        Err(error) => Err(error@),
    }
}

/// What the ping command answers.
pub const PING_REPLY: &'static str = "🏓 Pong!";

/// The line that the terminal shows for an answered ping. One that came by direct
/// message shows that for a guild.
pub fn ping_line(
    console: &Console,
    user_name: &str,
    guild_name: Option<&str>,
    channel_name: Option<&str>,
) -> (r: String)
    ensures
        r@ == line_text(
            *console,
            "OK"@,
            "/ping"@,
            user_name@,
            match opt_str(guild_name) {
                Some(name) => name,
                None => "DM"@,
            },
            opt_str(channel_name),
            ""@,
        ),
{
    let place = match guild_name {
        Some(name) => name,
        None => "DM",
    };
    terminal::line(console, "OK", "/ping", user_name, place, channel_name, "")
}

/// What the status command answers.
pub open spec fn status_answer(address: Seq<char>, look: Look) -> Seq<char> {
    match look {
        Ok(status) => "Status for `"@ + address + "`: **"@ + status_text(status) + "**"@,
        Err(error) => "Status check failed: "@ + error,
    }
}

/// What the status command logs: its label and its detail.
pub open spec fn status_log(look: Look, elapsed_ms: u128) -> (Seq<char>, Seq<char>) {
    match look {
        Ok(status) => (
            "OK"@,
            quoted(brief_status(status)) + " "@ + duration_text(elapsed_ms as nat),
        ),
        Err(error) => (
            "FAIL"@,
            duration_text(elapsed_ms as nat) + " error "@ + cleaned(error),
        ),
    }
}

/// What the status command answers.
pub fn status_content(address: &str, look: &Result<ServerStatus, String>) -> (r: String)
    ensures
        r@ == status_answer(address@, look_of(*look)),
{
    match look {
        Ok(status) => text::cat5(
            "Status for `",
            address,
            "`: **",
            status.to_string().as_str(),
            "**",
        ),
        Err(error) => text::cat2("Status check failed: ", error.as_str()),
    }
}

/// What the status command logs: its label and its detail.
pub fn status_log_line(
    look: &Result<ServerStatus, String>,
    started_at_ms: u128,
    now_ms: u128,
) -> (r: (&'static str, String))
    ensures
        (r.0@, r.1@) == status_log(look_of(*look), elapsed(started_at_ms, now_ms)),
{
    let shown = terminal::format_duration(elapsed_ms(started_at_ms, now_ms));
    match look {
        Ok(status) => {
            let brief = terminal::quote(terminal::brief_minecraft_status(status).as_str());
            ("OK", text::cat3(brief.as_str(), " ", shown.as_str()))
        },
        Err(error) => (
            "FAIL",
            text::cat3(shown.as_str(), " error ", terminal::clean(error.as_str()).as_str()),
        ),
    }
}

// ---------------------------------------------------------------------------
// Diagnosis
// ---------------------------------------------------------------------------

/// What is shown of the start under way: its ID, or that there is one, or that
/// there is none.
pub open spec fn active_text(
    active: Option<ActiveStartRun<Seq<char>>>,
    access: SensitiveCommandAccess<Seq<char>>,
) -> Seq<char> {
    match active {
        None => "none"@,
        Some(run) => if scope_of(access).allows(run.guild_id) {
            run.run_id
        } else {
            "hidden"@
        },
    }
}

/// What is shown of the start under way.
pub fn active_run_display(active_run: &Option<ActiveStartRun>, access: &SensitiveCommandAccess) -> (r: String)
    ensures
        r@ == active_text(opt_active(*active_run), access@),
{
    match active_run {
        None => "none".to_owned(),
        Some(active) => {
            if can_view_active_run(access, &active.guild_id) {
                active.run_id.clone()
            } else {
                "hidden".to_owned()
            }
        },
    }
}

/// An administrator of another guild is not shown the ID of the start under
/// way, whatever it is.
pub proof fn diagnosis_hides_other_guilds_runs(
    one: ActiveStartRun<Seq<char>>,
    other: ActiveStartRun<Seq<char>>,
    guild_id: Seq<char>,
)
    requires
        one.guild_id != Some(guild_id),
        other.guild_id != Some(guild_id),
    ensures
        active_text(Some(one), SensitiveCommandAccess::GuildAdministrator { guild_id }) == active_text(
            Some(other),
            SensitiveCommandAccess::GuildAdministrator { guild_id },
        ),
{
}

/// The settings that a diagnosis shows.
#[verifier::ext_equal]
#[derive(Clone, Debug)]
pub struct Settings<T = String> {
    pub minecraft_server_addr: T,
    pub server_id: Option<T>,
    pub headless: bool,
    pub artifact_dir: T,
    pub artifact_capture: ArtifactCapture,
    pub attach_screenshots: bool,
    pub persist_run_events: bool,
    pub redact_run_events: bool,
    pub owners: usize,
}

impl View for Settings<String> {
    type V = Settings<Seq<char>>;

    open spec fn view(&self) -> Settings<Seq<char>> {
        Settings {
            minecraft_server_addr: self.minecraft_server_addr@,
            server_id: opt_text(self.server_id),
            headless: self.headless,
            artifact_dir: self.artifact_dir@,
            artifact_capture: self.artifact_capture,
            attach_screenshots: self.attach_screenshots,
            persist_run_events: self.persist_run_events,
            redact_run_events: self.redact_run_events,
            owners: self.owners,
        }
    }
}

/// The settings that a diagnosis shows. A panel is used without a window.
pub open spec fn shown_settings(config: Config<Seq<char>, Set<Seq<char>>>) -> Settings<Seq<char>> {
    Settings {
        minecraft_server_addr: config.minecraft_server_addr,
        server_id: match config.provider {
            ProviderConfig::Aternos(aternos) => aternos.server_id,
            ProviderConfig::Pterodactyl(panel) => Some(panel.server_id),
        },
        headless: match config.provider {
            ProviderConfig::Aternos(aternos) => aternos.headless,
            ProviderConfig::Pterodactyl(_) => true,
        },
        artifact_dir: config.artifact_dir,
        artifact_capture: config.artifact_capture,
        attach_screenshots: config.attach_screenshots,
        persist_run_events: config.persist_run_events,
        redact_run_events: config.redact_run_events,
        owners: config.owner_user_ids.len() as usize,
    }
}

/// The settings that a diagnosis shows.
pub fn settings_of(config: &Config) -> (r: Settings)
    ensures
        r@ == shown_settings(config@),
        r.owners == config@.owner_user_ids.len(),
{
    let (server_id, headless) = match &config.provider {
        ProviderConfig::Aternos(aternos) => (text::copy_opt(&aternos.server_id), aternos.headless),
        ProviderConfig::Pterodactyl(panel) => (Some(panel.server_id.clone()), true),
    };
    Settings {
        minecraft_server_addr: config.minecraft_server_addr.clone(),
        server_id,
        headless,
        artifact_dir: config.artifact_dir.clone(),
        artifact_capture: config.artifact_capture,
        attach_screenshots: config.attach_screenshots,
        persist_run_events: config.persist_run_events,
        redact_run_events: config.redact_run_events,
        owners: config.owner_user_ids.len(),
    }
}

/// A truth value in a word.
pub open spec fn bool_text(value: bool) -> Seq<char> {
    if value {
        "true"@
    } else {
        "false"@
    }
}

fn show_bool(value: bool) -> (r: &'static str)
    ensures
        r@ == bool_text(value),
{
    if value {
        "true"
    } else {
        "false"
    }
}

/// The status of the server in a diagnosis.
pub open spec fn diagnosed_status(look: Look) -> Seq<char> {
    match look {
        Ok(status) => status_text(status),
        Err(error) => "error: "@ + error,
    }
}

/// What a diagnosis answers.
pub open spec fn diagnosis_text(settings: Settings<Seq<char>>, active: Seq<char>, status: Seq<char>) -> Seq<char> {
    "Diagnostics\nServer address: `"@ + settings.minecraft_server_addr + "`\nAternos server id: `"@ + (
    match settings.server_id {
        Some(id) => id,
        None => "not configured"@,
    }) + "`\nHeadless: `"@ + bool_text(settings.headless) + "`\nArtifact dir: `"@ + settings.artifact_dir
        + "`\nArtifact capture: `"@ + settings.artifact_capture.name() + "`\nAttach screenshots: `"@
        + bool_text(settings.attach_screenshots) + "`\nPersist events: `"@ + bool_text(
        settings.persist_run_events,
    ) + "`\nRedact events: `"@ + bool_text(settings.redact_run_events) + "`\nConfigured owners: `"@
        + decimal(settings.owners as nat) + "`\nActive start run: `"@ + active
        + "`\nMinecraft status: **"@ + status + "**"@
}

/// The answer of a diagnosis.
pub open spec fn diagnosis(settings: Settings<Seq<char>>, active: Seq<char>, look: Look) -> Answer<Seq<char>> {
    Answer {
        content: diagnosis_text(settings, active, diagnosed_status(look)),
        screenshot: None,
        label: "OK"@,
        detail: "active "@ + active + " MC "@ + quoted(diagnosed_status(look)),
    }
}

/// Where the bot and the server stand, as far as the caller may see it.
pub fn diagnose(
    settings: &Settings,
    active_run: &Option<ActiveStartRun>,
    access: &SensitiveCommandAccess,
    look: &Result<ServerStatus, String>,
) -> (r: Answer)
    ensures
        r@ == diagnosis(settings@, active_text(opt_active(*active_run), access@), look_of(*look)),
{
    let active = active_run_display(active_run, access);
    let status = match look {
        Ok(status) => status.to_string(),
        Err(error) => text::cat2("error: ", error.as_str()),
    };
    let server_id = match &settings.server_id {
        Some(id) => id.as_str(),
        None => "not configured",
    };
    let mut content = text::cat5(
        "Diagnostics\nServer address: `",
        settings.minecraft_server_addr.as_str(),
        "`\nAternos server id: `",
        server_id,
        "`\nHeadless: `",
    );
    content.push_str(show_bool(settings.headless));
    content.push_str("`\nArtifact dir: `");
    content.push_str(settings.artifact_dir.as_str());
    content.push_str("`\nArtifact capture: `");
    content.push_str(settings.artifact_capture.to_string().as_str());
    content.push_str("`\nAttach screenshots: `");
    content.push_str(show_bool(settings.attach_screenshots));
    content.push_str("`\nPersist events: `");
    content.push_str(show_bool(settings.persist_run_events));
    content.push_str("`\nRedact events: `");
    content.push_str(show_bool(settings.redact_run_events));
    content.push_str("`\nConfigured owners: `");
    content.push_str(text::decimal_usize(settings.owners).as_str());
    content.push_str("`\nActive start run: `");
    content.push_str(active.as_str());
    content.push_str("`\nMinecraft status: **");
    content.push_str(status.as_str());
    content.push_str("**");
    Answer {
        content,
        screenshot: None,
        label: "OK".to_owned(),
        detail: text::cat4(
            "active ",
            active.as_str(),
            " MC ",
            terminal::quote(status.as_str()).as_str(),
        ),
    }
}

/// The start under way is shown by its ID to those who may see it, and else hidden; where
/// there is none, that is said.
pub proof fn starts_under_way_are_shown_to_their_own(
    run: ActiveStartRun<Seq<char>>,
    access: SensitiveCommandAccess<Seq<char>>,
)
    ensures
        active_text(None, access) == "none"@,
        access is Owner ==> active_text(Some(run), access) == run.run_id,
        access matches SensitiveCommandAccess::GuildAdministrator { guild_id } ==> active_text(Some(run), access) == (
        if run.guild_id == Some(guild_id) {
            run.run_id
        } else {
            "hidden"@
        }),
{
}

/// A look at the server is told with its address, and a failed one by its error.
pub proof fn looks_are_told(address: Seq<char>, status: ServerStatus<Seq<char>, Seq<Seq<char>>>, error: Seq<char>)
    ensures
        status_answer(address, Ok(status)) == "Status for `"@ + address + "`: **"@ + status_text(status) + "**"@,
        status_answer(address, Err(error)) == "Status check failed: "@ + error,
        diagnosed_status(Ok(status)) == status_text(status),
        diagnosed_status(Err(error)) == "error: "@ + error,
{
}

/// A diagnosis shows the settings in use: the server of the provider, and whether its
/// browser has a window, which a panel never has.
pub proof fn diagnoses_show_the_settings_in_use(config: Config<Seq<char>, Set<Seq<char>>>)
    ensures
        ({
            let shown = shown_settings(config);
            &&& config.provider matches ProviderConfig::Aternos(aternos) ==> shown.server_id == aternos.server_id
                && shown.headless == aternos.headless
            &&& config.provider matches ProviderConfig::Pterodactyl(panel) ==> shown.server_id == Some(panel.server_id)
                && shown.headless
            &&& shown.minecraft_server_addr == config.minecraft_server_addr
            &&& shown.artifact_dir == config.artifact_dir
            &&& shown.artifact_capture == config.artifact_capture
            &&& shown.attach_screenshots == config.attach_screenshots
            &&& shown.persist_run_events == config.persist_run_events
            &&& shown.redact_run_events == config.redact_run_events
            &&& config.owner_user_ids.len() <= usize::MAX ==> shown.owners == config.owner_user_ids.len()
        }),
{
}

} // verus!
