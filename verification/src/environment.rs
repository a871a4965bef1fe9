//! The environment variables, and the settings that they make up.

use vstd::prelude::*;
use crate::config::{
    bool_value, bounded_positive_u64_var_value, bounded_value, capture_value, flaresolverr_origin,
    is_container_name, number_value, owner_ids, panel_origin, parse_artifact_capture_value,
    parse_bool_value, parse_flaresolverr_url, parse_owner_user_ids_value, parse_panel_origin,
    parse_provider_kind, parse_pterodactyl_server_id, provider_kind, server_identifier,
    usize_var_value, valid_container_name, ArtifactCapture, ServerProviderKind, UserIds, ValueError,
};
use crate::outside::{url_of, ParsedUrl};
use crate::text;
use crate::text::{decimal, opt_str, opt_text, trim};

verus! {

// ---------------------------------------------------------------------------
// Variables
// ---------------------------------------------------------------------------

/// A setting that cannot be used: what the variable must be and, where its
/// value was read, what is wrong with it.
#[verifier::ext_equal]
#[derive(Clone, Debug)]
pub struct ConfigError<T = String> {
    pub message: T,
    pub cause: Option<ValueError<T>>,
}

impl View for ConfigError<String> {
    type V = ConfigError<Seq<char>>;

    open spec fn view(&self) -> ConfigError<Seq<char>> {
        ConfigError {
            message: self.message@,
            cause: match self.cause {
                Some(cause) => Some(cause@),
                None => None,
            },
        }
    }
}

impl ConfigError<String> {
    /// What the variable must be.
    pub fn to_string(&self) -> (r: String)
        ensures
            r@ == self@.message,
    {
        self.message.clone()
    }
}

/// The value of a variable among `vars`, each a name and a value.
pub open spec fn lookup(vars: Seq<(String, String)>, name: Seq<char>) -> Option<Seq<char>>
    decreases vars.len(),
{
    if vars.len() == 0 {
        None
    } else if vars[0].0@ == name {
        Some(vars[0].1@)
    } else {
        lookup(vars.skip(1), name)
    }
}

/// The environment variables that are valid Unicode, by name and value.
#[derive(Clone, Debug)]
pub struct Environment {
    pub vars: Vec<(String, String)>,
}

impl Environment {
    /// The value of a variable.
    pub open spec fn value(&self, name: Seq<char>) -> Option<Seq<char>> {
        lookup(self.vars@, name)
    }

    /// The value of a variable.
    pub fn get(&self, name: &str) -> (r: Option<&str>)
        ensures
            opt_str(r) == self.value(name@),
    {
        let mut i: usize = 0;
        proof {
            assert(self.vars@.skip(0) =~= self.vars@);
        }
        while i < self.vars.len()
            invariant
                i <= self.vars@.len(),
                lookup(self.vars@, name@) == lookup(self.vars@.skip(i as int), name@),
            decreases self.vars@.len() - i,
        {
            if text::same(self.vars[i].0.as_str(), name) {
                return Some(self.vars[i].1.as_str());
            }
            proof {
                assert(self.vars@.skip(i as int).skip(1) =~= self.vars@.skip(i + 1));
            }
            i += 1;
        }
        None
    }

    // -----------------------------------------------------------------------
    // Readers
    // -----------------------------------------------------------------------

    /// A variable that must be set.
    pub open spec fn required(&self, name: Seq<char>) -> Result<Seq<char>, ConfigError<Seq<char>>> {
        match self.value(name) {
            Some(value) => Ok(value),
            None => Err(ConfigError { message: name + " must be set"@, cause: None }),
        }
    }

    fn required_var(&self, name: &str) -> (r: Result<String, ConfigError>)
        ensures
            text_view(r) == self.required(name@),
    {
        match self.get(name) {
            Some(value) => Ok(value.to_owned()),
            None => Err(ConfigError { message: text::cat2(name, " must be set"), cause: None }),
        }
    }

    /// A variable that must be set and not blank, trimmed.
    pub open spec fn required_nonempty(&self, name: Seq<char>) -> Result<Seq<char>, ConfigError<Seq<char>>> {
        match self.required(name) {
            Ok(value) => if trim(value).len() == 0 {
                Err(ConfigError { message: name + " must not be empty"@, cause: None })
            } else {
                Ok(trim(value))
            },
            Err(error) => Err(error),
        }
    }

    fn required_nonempty_var(&self, name: &str) -> (r: Result<String, ConfigError>)
        ensures
            text_view(r) == self.required_nonempty(name@),
    {
        match self.required_var(name) {
            Ok(value) => {
                let bare = text::trimmed(value.as_str());
                if bare.as_str().is_empty() {
                    Err(ConfigError { message: text::cat2(name, " must not be empty"), cause: None })
                } else {
                    Ok(bare)
                }
            },
            Err(error) => Err(error),
        }
    }

    /// A variable, trimmed, where it is set and not blank.
    pub open spec fn nonempty(&self, name: Seq<char>) -> Option<Seq<char>> {
        match self.value(name) {
            Some(value) if trim(value).len() > 0 => Some(trim(value)),
            _ => None,
        }
    }

    fn optional_nonempty_var(&self, name: &str) -> (r: Option<String>)
        ensures
            opt_text(r) == self.nonempty(name@),
    {
        match self.get(name) {
            Some(value) => {
                let bare = text::trimmed(value);
                if bare.as_str().is_empty() {
                    None
                } else {
                    Some(bare)
                }
            },
            None => None,
        }
    }

    /// A variable, trimmed, or `fallback` where it is unset or blank.
    pub open spec fn nonempty_or(&self, name: Seq<char>, fallback: Seq<char>) -> Seq<char> {
        match self.nonempty(name) {
            Some(value) => value,
            None => fallback,
        }
    }

    fn nonempty_var_or(&self, name: &str, fallback: &str) -> (r: String)
        ensures
            r@ == self.nonempty_or(name@, fallback@),
    {
        match self.optional_nonempty_var(name) {
            Some(value) => value,
            None => fallback.to_owned(),
        }
    }

    /// A variable as it stands, or `fallback` where it is unset.
    pub open spec fn value_or(&self, name: Seq<char>, fallback: Seq<char>) -> Seq<char> {
        match self.value(name) {
            Some(value) => value,
            None => fallback,
        }
    }

    fn var_or(&self, name: &str, fallback: &str) -> (r: String)
        ensures
            r@ == self.value_or(name@, fallback@),
    {
        match self.get(name) {
            Some(value) => value.to_owned(),
            None => fallback.to_owned(),
        }
    }

    /// The provider.
    pub open spec fn provider_setting(&self, name: Seq<char>) -> Result<ServerProviderKind, ConfigError<Seq<char>>> {
        match self.required_nonempty(name) {
            Ok(value) => in_context(
                provider_kind(value),
                name + " must be one of aternos, pterodactyl"@,
            ),
            Err(error) => Err(error),
        }
    }

    fn provider_kind_var(&self, name: &str) -> (r: Result<ServerProviderKind, ConfigError>)
        ensures
            plain_view(r) == self.provider_setting(name@),
    {
        match self.required_nonempty_var(name) {
            Ok(value) => match parse_provider_kind(value.as_str()) {
                Ok(kind) => Ok(kind),
                Err(cause) => Err(
                    ConfigError {
                        message: text::cat2(name, " must be one of aternos, pterodactyl"),
                        cause: Some(cause),
                    },
                ),
            },
            Err(error) => Err(error),
        }
    }

    /// The panel's address.
    pub open spec fn panel_setting(&self, name: Seq<char>) -> Result<ParsedUrl<Seq<char>>, ConfigError<Seq<char>>> {
        match self.required_nonempty(name) {
            Ok(value) => in_context(
                panel_origin(url_of(value)),
                name + " must be an HTTPS origin without credentials or a path"@,
            ),
            Err(error) => Err(error),
        }
    }

    fn panel_origin_var(&self, name: &str) -> (r: Result<ParsedUrl, ConfigError>)
        ensures
            url_view(r) == self.panel_setting(name@),
    {
        match self.required_nonempty_var(name) {
            Ok(value) => match parse_panel_origin(value.as_str()) {
                Ok(url) => Ok(url),
                Err(cause) => Err(
                    ConfigError {
                        message: text::cat2(
                            name,
                            " must be an HTTPS origin without credentials or a path",
                        ),
                        cause: Some(cause),
                    },
                ),
            },
            Err(error) => Err(error),
        }
    }

    /// The solver's address.
    pub open spec fn solver_setting(&self, name: Seq<char>) -> Result<ParsedUrl<Seq<char>>, ConfigError<Seq<char>>> {
        in_context(
            flaresolverr_origin(url_of(self.nonempty_or(name, "http://127.0.0.1:8191/"@))),
            name + " must be an HTTP loopback origin"@,
        )
    }

    fn flaresolverr_url_var(&self, name: &str) -> (r: Result<ParsedUrl, ConfigError>)
        ensures
            url_view(r) == self.solver_setting(name@),
    {
        let value = self.nonempty_var_or(name, "http://127.0.0.1:8191/");
        match parse_flaresolverr_url(value.as_str()) {
            Ok(url) => Ok(url),
            Err(cause) => Err(
                ConfigError {
                    message: text::cat2(name, " must be an HTTP loopback origin"),
                    cause: Some(cause),
                },
            ),
        }
    }

    /// The solver's container.
    pub open spec fn container_setting(&self, name: Seq<char>) -> Result<Seq<char>, ConfigError<Seq<char>>> {
        let value = self.nonempty_or(name, "flaresolverr"@);
        if is_container_name(value) {
            Ok(value)
        } else {
            Err(
                ConfigError {
                    message: name + " contains an invalid Docker container name"@,
                    cause: None,
                },
            )
        }
    }

    fn container_name_var(&self, name: &str) -> (r: Result<String, ConfigError>)
        ensures
            text_view(r) == self.container_setting(name@),
    {
        let value = self.nonempty_var_or(name, "flaresolverr");
        if valid_container_name(value.as_str()) {
            Ok(value)
        } else {
            Err(
                ConfigError {
                    message: text::cat2(name, " contains an invalid Docker container name"),
                    cause: None,
                },
            )
        }
    }

    /// The server on the panel.
    pub open spec fn server_setting(&self, name: Seq<char>) -> Result<Seq<char>, ConfigError<Seq<char>>> {
        match self.required_nonempty(name) {
            Ok(value) => in_context(
                server_identifier(value),
                name + " contains an invalid server identifier"@,
            ),
            Err(error) => Err(error),
        }
    }

    fn pterodactyl_server_id_var(&self, name: &str) -> (r: Result<String, ConfigError>)
        ensures
            text_view(r) == self.server_setting(name@),
    {
        match self.required_nonempty_var(name) {
            Ok(value) => match parse_pterodactyl_server_id(value.as_str()) {
                Ok(id) => Ok(id),
                Err(cause) => Err(
                    ConfigError {
                        message: text::cat2(name, " contains an invalid server identifier"),
                        cause: Some(cause),
                    },
                ),
            },
            Err(error) => Err(error),
        }
    }

    /// A boolean.
    pub open spec fn bool_setting(&self, name: Seq<char>, default: bool) -> Result<bool, ConfigError<Seq<char>>> {
        in_context(bool_value(self.value(name), default), name + " must be a boolean"@)
    }

    fn bool_var(&self, name: &str, default: bool) -> (r: Result<bool, ConfigError>)
        ensures
            plain_view(r) == self.bool_setting(name@, default),
    {
        match parse_bool_value(self.get(name), default) {
            Ok(value) => Ok(value),
            Err(cause) => Err(
                ConfigError { message: text::cat2(name, " must be a boolean"), cause: Some(cause) },
            ),
        }
    }

    /// A number from one to `maximum`.
    pub open spec fn bounded_setting(&self, name: Seq<char>, default: nat, maximum: u64) -> Result<nat, ConfigError<Seq<char>>> {
        in_context(
            bounded_value(self.value(name), default, maximum),
            name + " must be a positive unsigned integer no greater than "@ + decimal(maximum as nat),
        )
    }

    fn bounded_positive_u64_var(&self, name: &str, default: u64, maximum: u64) -> (r: Result<u64, ConfigError>)
        ensures
            number_view(r) == self.bounded_setting(name@, default as nat, maximum),
    {
        match bounded_positive_u64_var_value(self.get(name), default, maximum) {
            Ok(value) => Ok(value),
            Err(cause) => Err(
                ConfigError {
                    message: text::cat3(
                        name,
                        " must be a positive unsigned integer no greater than ",
                        text::decimal_u64(maximum).as_str(),
                    ),
                    cause: Some(cause),
                },
            ),
        }
    }

    /// A number that fits the machine.
    pub open spec fn count_setting(&self, name: Seq<char>, default: nat) -> Result<nat, ConfigError<Seq<char>>> {
        in_context(
            number_value(self.value(name), default, usize::MAX as nat),
            name + " must be an unsigned integer"@,
        )
    }

    fn usize_var(&self, name: &str, default: usize) -> (r: Result<usize, ConfigError>)
        ensures
            (match r {
                Ok(n) => Ok::<nat, ConfigError<Seq<char>>>(n as nat),
                Err(error) => Err(error@),
            }) == self.count_setting(name@, default as nat),
    {
        match usize_var_value(self.get(name), default) {
            Ok(value) => Ok(value),
            Err(cause) => Err(
                ConfigError {
                    message: text::cat2(name, " must be an unsigned integer"),
                    cause: Some(cause),
                },
            ),
        }
    }

    /// The capture mode.
    pub open spec fn capture_setting(&self, name: Seq<char>, default: ArtifactCapture) -> Result<ArtifactCapture, ConfigError<Seq<char>>> {
        match self.value(name) {
            Some(value) => in_context(
                capture_value(value),
                name + " must be one of screenshots, full, failure, off"@,
            ),
            None => Ok(default),
        }
    }

    fn artifact_capture_var(&self, name: &str, default: ArtifactCapture) -> (r: Result<ArtifactCapture, ConfigError>)
        ensures
            plain_view(r) == self.capture_setting(name@, default),
    {
        match self.get(name) {
            Some(value) => match parse_artifact_capture_value(value) {
                Ok(mode) => Ok(mode),
                Err(cause) => Err(
                    ConfigError {
                        message: text::cat2(name, " must be one of screenshots, full, failure, off"),
                        cause: Some(cause),
                    },
                ),
            },
            None => Ok(default),
        }
    }

    /// The owners.
    pub open spec fn owners_setting(&self, name: Seq<char>) -> Result<Set<Seq<char>>, ConfigError<Seq<char>>> {
        in_context(
            owner_ids(self.value_or(name, ""@)),
            name + " must be a comma-separated list of Discord user IDs"@,
        )
    }

    fn owner_user_ids_var(&self, name: &str) -> (r: Result<UserIds, ConfigError>)
        ensures
            (match r {
                Ok(ids) => Ok::<Set<Seq<char>>, ConfigError<Seq<char>>>(ids@),
                Err(error) => Err(error@),
            }) == self.owners_setting(name@),
    {
        match parse_owner_user_ids_value(self.var_or(name, "").as_str()) {
            Ok(ids) => Ok(ids),
            Err(cause) => Err(
                ConfigError {
                    message: text::cat2(name, " must be a comma-separated list of Discord user IDs"),
                    cause: Some(cause),
                },
            ),
        }
    }
}

/// `result` with its error explained by what the variable must be.
pub open spec fn in_context<V>(
    result: Result<V, ValueError<Seq<char>>>,
    message: Seq<char>,
) -> Result<V, ConfigError<Seq<char>>> {
    match result {
        Ok(value) => Ok(value),
        Err(cause) => Err(ConfigError { message, cause: Some(cause) }),
    }
}

/// The view of a result whose value is its own view.
pub open spec fn plain_view<V>(result: Result<V, ConfigError>) -> Result<V, ConfigError<Seq<char>>> {
    match result {
        Ok(value) => Ok(value),
        Err(error) => Err(error@),
    }
}

/// The view of a result whose value is a text.
pub open spec fn text_view(result: Result<String, ConfigError>) -> Result<Seq<char>, ConfigError<Seq<char>>> {
    match result {
        Ok(value) => Ok(value@),
        Err(error) => Err(error@),
    }
}

/// The view of a result whose value is a URL.
pub open spec fn url_view(result: Result<ParsedUrl, ConfigError>) -> Result<ParsedUrl<Seq<char>>, ConfigError<Seq<char>>> {
    match result {
        Ok(value) => Ok(value@),
        Err(error) => Err(error@),
    }
}

/// The view of a result whose value is a number.
pub open spec fn number_view(result: Result<u64, ConfigError>) -> Result<nat, ConfigError<Seq<char>>> {
    match result {
        Ok(value) => Ok(value as nat),
        Err(error) => Err(error@),
    }
}

// ---------------------------------------------------------------------------
// Settings
// ---------------------------------------------------------------------------

/// The account and the browser for an Aternos server.
#[verifier::ext_equal]
#[derive(Clone, Debug)]
pub struct AternosConfig<T = String> {
    pub user: T,
    pub password: T,
    pub server_id: Option<T>,
    pub headless: bool,
    pub chrome_path: Option<T>,
}

impl View for AternosConfig<String> {
    type V = AternosConfig<Seq<char>>;

    open spec fn view(&self) -> AternosConfig<Seq<char>> {
        AternosConfig {
            user: self.user@,
            password: self.password@,
            server_id: opt_text(self.server_id),
            headless: self.headless,
            chrome_path: opt_text(self.chrome_path),
        }
    }
}

/// The panel, the server on it and the challenge solver.
#[verifier::ext_equal]
#[derive(Clone, Debug)]
pub struct PterodactylConfig<T = String> {
    pub panel_origin: ParsedUrl<T>,
    pub server_id: T,
    pub api_token: T,
    pub power_enabled: bool,
    pub allocation_wait_secs: u64,
    pub flaresolverr_url: ParsedUrl<T>,
    pub flaresolverr_container: T,
    pub orbctl_path: T,
    pub docker_path: T,
}

impl View for PterodactylConfig<String> {
    type V = PterodactylConfig<Seq<char>>;

    open spec fn view(&self) -> PterodactylConfig<Seq<char>> {
        PterodactylConfig {
            panel_origin: self.panel_origin@,
            server_id: self.server_id@,
            api_token: self.api_token@,
            power_enabled: self.power_enabled,
            allocation_wait_secs: self.allocation_wait_secs,
            flaresolverr_url: self.flaresolverr_url@,
            flaresolverr_container: self.flaresolverr_container@,
            orbctl_path: self.orbctl_path@,
            docker_path: self.docker_path@,
        }
    }
}

/// The settings of the provider in use.
#[verifier::ext_equal]
#[derive(Clone, Debug)]
pub enum ProviderConfig<T = String> {
    Aternos(AternosConfig<T>),
    Pterodactyl(PterodactylConfig<T>),
}

impl View for ProviderConfig<String> {
    type V = ProviderConfig<Seq<char>>;

    open spec fn view(&self) -> ProviderConfig<Seq<char>> {
        match *self {
            ProviderConfig::Aternos(config) => ProviderConfig::Aternos(config@),
            ProviderConfig::Pterodactyl(config) => ProviderConfig::Pterodactyl(config@),
        }
    }
}

/// All settings.
#[verifier::ext_equal]
#[derive(Debug)]
pub struct Config<T = String, I = UserIds> {
    pub discord_token: T,
    pub provider: ProviderConfig<T>,
    pub minecraft_server_addr: T,
    pub start_wait_online_secs: u64,
    pub run_history_limit: usize,
    pub artifact_dir: T,
    pub artifact_capture: ArtifactCapture,
    pub attach_screenshots: bool,
    pub persist_run_events: bool,
    pub redact_run_events: bool,
    pub owner_user_ids: I,
}

impl View for Config<String, UserIds> {
    type V = Config<Seq<char>, Set<Seq<char>>>;

    open spec fn view(&self) -> Config<Seq<char>, Set<Seq<char>>> {
        Config {
            discord_token: self.discord_token@,
            provider: self.provider@,
            minecraft_server_addr: self.minecraft_server_addr@,
            start_wait_online_secs: self.start_wait_online_secs,
            run_history_limit: self.run_history_limit,
            artifact_dir: self.artifact_dir@,
            artifact_capture: self.artifact_capture,
            attach_screenshots: self.attach_screenshots,
            persist_run_events: self.persist_run_events,
            redact_run_events: self.redact_run_events,
            owner_user_ids: self.owner_user_ids@,
        }
    }
}

/// The longest time that a run waits for the server, in seconds.
pub const MAX_WAIT_SECS: u64 = 3_600;

/// A setting that could not be used, if any.
pub open spec fn failure_of<V>(result: Result<V, ConfigError<Seq<char>>>) -> Option<ConfigError<Seq<char>>> {
    match result {
        Ok(_) => None,
        Err(error) => Some(error),
    }
}

/// The first of two errors, if there is any.
pub open spec fn first_of(
    error: Option<ConfigError<Seq<char>>>,
    others: Option<ConfigError<Seq<char>>>,
) -> Option<ConfigError<Seq<char>>> {
    match error {
        Some(_) => error,
        None => others,
    }
}

/// The first setting of the chosen provider that cannot be used.
pub open spec fn provider_error(env: Environment, kind: ServerProviderKind) -> Option<ConfigError<Seq<char>>> {
    match kind {
        ServerProviderKind::Aternos => first_of(
            failure_of(env.required("ATERNOS_USER"@)),
            first_of(
                failure_of(env.required("ATERNOS_PASS"@)),
                failure_of(env.bool_setting("HEADLESS"@, true)),
            ),
        ),
        ServerProviderKind::Pterodactyl => first_of(
            failure_of(env.panel_setting("PTERODACTYL_PANEL_URL"@)),
            first_of(
                failure_of(env.server_setting("PTERODACTYL_SERVER_ID"@)),
                first_of(
                    failure_of(env.required_nonempty("PTERODACTYL_API_TOKEN"@)),
                    first_of(
                        failure_of(env.bool_setting("PTERODACTYL_POWER_ENABLED"@, false)),
                        first_of(
                            failure_of(
                                env.bounded_setting(
                                    "PTERODACTYL_ALLOCATION_WAIT_SECS"@,
                                    1_200,
                                    MAX_WAIT_SECS,
                                ),
                            ),
                            first_of(
                                failure_of(env.solver_setting("FLARESOLVERR_URL"@)),
                                failure_of(env.container_setting("FLARESOLVERR_CONTAINER"@)),
                            ),
                        ),
                    ),
                ),
            ),
        ),
    }
}

/// The settings of the chosen provider, where all of them can be used.
pub open spec fn provider_settings(env: Environment, kind: ServerProviderKind) -> ProviderConfig<Seq<char>> {
    match kind {
        ServerProviderKind::Aternos => ProviderConfig::Aternos(
            AternosConfig {
                user: env.required("ATERNOS_USER"@)->Ok_0,
                password: env.required("ATERNOS_PASS"@)->Ok_0,
                server_id: match env.nonempty("ATERNOS_SERVER_ID"@) {
                    Some(id) => Some(id),
                    None => env.nonempty("SERVER_ID"@),
                },
                headless: env.bool_setting("HEADLESS"@, true)->Ok_0,
                chrome_path: env.nonempty("CHROME"@),
            },
        ),
        ServerProviderKind::Pterodactyl => ProviderConfig::Pterodactyl(
            PterodactylConfig {
                panel_origin: env.panel_setting("PTERODACTYL_PANEL_URL"@)->Ok_0,
                server_id: env.server_setting("PTERODACTYL_SERVER_ID"@)->Ok_0,
                api_token: env.required_nonempty("PTERODACTYL_API_TOKEN"@)->Ok_0,
                power_enabled: env.bool_setting("PTERODACTYL_POWER_ENABLED"@, false)->Ok_0,
                allocation_wait_secs: env.bounded_setting(
                    "PTERODACTYL_ALLOCATION_WAIT_SECS"@,
                    1_200,
                    MAX_WAIT_SECS,
                )->Ok_0 as u64,
                flaresolverr_url: env.solver_setting("FLARESOLVERR_URL"@)->Ok_0,
                flaresolverr_container: env.container_setting("FLARESOLVERR_CONTAINER"@)->Ok_0,
                orbctl_path: env.nonempty_or("ORBSTACK_BIN"@, "/opt/homebrew/bin/orbctl"@),
                docker_path: env.nonempty_or("DOCKER_BIN"@, "/usr/local/bin/docker"@),
            },
        ),
    }
}

/// The first setting that does not depend on the provider and cannot be used.
pub open spec fn common_error(env: Environment) -> Option<ConfigError<Seq<char>>> {
    first_of(
        failure_of(env.bool_setting("BUTLER_COLOR"@, true)),
        first_of(
            failure_of(env.bounded_setting("START_WAIT_ONLINE_SECS"@, 600, MAX_WAIT_SECS)),
            first_of(
                failure_of(env.count_setting("RUN_HISTORY_LIMIT"@, 20)),
                first_of(
                    failure_of(
                        env.capture_setting("ARTIFACT_CAPTURE"@, ArtifactCapture::Screenshots),
                    ),
                    first_of(
                        failure_of(env.bool_setting("BUTLER_ATTACH_SCREENSHOTS"@, true)),
                        first_of(
                            failure_of(env.bool_setting("BUTLER_PERSIST_RUN_EVENTS"@, true)),
                            first_of(
                                failure_of(env.bool_setting("BUTLER_REDACT_RUN_EVENTS"@, true)),
                                failure_of(env.owners_setting("BUTLER_OWNER_IDS"@)),
                            ),
                        ),
                    ),
                ),
            ),
        ),
    )
}

/// All settings, or the first that cannot be used.
pub open spec fn settings(env: Environment) -> Result<Config<Seq<char>, Set<Seq<char>>>, ConfigError<Seq<char>>> {
    match (env.required("DISCORD_TOKEN"@), env.provider_setting("SERVER_PROVIDER"@)) {
        (Err(error), _) => Err(error),
        (Ok(_), Err(error)) => Err(error),
        (Ok(discord_token), Ok(kind)) => match first_of(provider_error(env, kind), common_error(env)) {
            Some(error) => Err(error),
            None => Ok(
                Config {
                    discord_token,
                    provider: provider_settings(env, kind),
                    minecraft_server_addr: env.value_or("MINECRAFT_SERVER_ADDR"@, "localhost:25565"@),
                    start_wait_online_secs: env.bounded_setting(
                        "START_WAIT_ONLINE_SECS"@,
                        600,
                        MAX_WAIT_SECS,
                    )->Ok_0 as u64,
                    run_history_limit: env.count_setting("RUN_HISTORY_LIMIT"@, 20)->Ok_0 as usize,
                    artifact_dir: env.value_or("ARTIFACT_DIR"@, "artifacts/runs"@),
                    artifact_capture: env.capture_setting(
                        "ARTIFACT_CAPTURE"@,
                        ArtifactCapture::Screenshots,
                    )->Ok_0,
                    attach_screenshots: env.bool_setting("BUTLER_ATTACH_SCREENSHOTS"@, true)->Ok_0,
                    persist_run_events: env.bool_setting("BUTLER_PERSIST_RUN_EVENTS"@, true)->Ok_0,
                    redact_run_events: env.bool_setting("BUTLER_REDACT_RUN_EVENTS"@, true)->Ok_0,
                    owner_user_ids: env.owners_setting("BUTLER_OWNER_IDS"@)->Ok_0,
                },
            ),
        },
    }
}

fn aternos_config(env: &Environment) -> (r: Result<AternosConfig, ConfigError>)
    ensures
        match r {
            Ok(config) => provider_error(*env, ServerProviderKind::Aternos) is None && provider_settings(
                *env,
                ServerProviderKind::Aternos,
            ) == ProviderConfig::Aternos(config@),
            Err(error) => provider_error(*env, ServerProviderKind::Aternos) == Some(error@),
        },
{
    let user = match env.required_var("ATERNOS_USER") {
        Ok(value) => value,
        Err(error) => return Err(error),
    };
    let password = match env.required_var("ATERNOS_PASS") {
        Ok(value) => value,
        Err(error) => return Err(error),
    };
    let server_id = match env.optional_nonempty_var("ATERNOS_SERVER_ID") {
        Some(id) => Some(id),
        None => env.optional_nonempty_var("SERVER_ID"),
    };
    let headless = match env.bool_var("HEADLESS", true) {
        Ok(value) => value,
        Err(error) => return Err(error),
    };
    let chrome_path = env.optional_nonempty_var("CHROME");
    Ok(AternosConfig { user, password, server_id, headless, chrome_path })
}

fn pterodactyl_config(env: &Environment) -> (r: Result<PterodactylConfig, ConfigError>)
    ensures
        match r {
            Ok(config) => provider_error(*env, ServerProviderKind::Pterodactyl) is None
                && provider_settings(*env, ServerProviderKind::Pterodactyl)
                == ProviderConfig::Pterodactyl(config@),
            Err(error) => provider_error(*env, ServerProviderKind::Pterodactyl) == Some(error@),
        },
{
    let panel_origin = match env.panel_origin_var("PTERODACTYL_PANEL_URL") {
        Ok(value) => value,
        Err(error) => return Err(error),
    };
    let server_id = match env.pterodactyl_server_id_var("PTERODACTYL_SERVER_ID") {
        Ok(value) => value,
        Err(error) => return Err(error),
    };
    let api_token = match env.required_nonempty_var("PTERODACTYL_API_TOKEN") {
        Ok(value) => value,
        Err(error) => return Err(error),
    };
    let power_enabled = match env.bool_var("PTERODACTYL_POWER_ENABLED", false) {
        Ok(value) => value,
        Err(error) => return Err(error),
    };
    let allocation_wait_secs: u64 = match env.bounded_positive_u64_var(
        "PTERODACTYL_ALLOCATION_WAIT_SECS",
        1_200,
        MAX_WAIT_SECS,
    ) {
        Ok(value) => value,
        Err(error) => return Err(error),
    };
    let flaresolverr_url = match env.flaresolverr_url_var("FLARESOLVERR_URL") {
        Ok(value) => value,
        Err(error) => return Err(error),
    };
    let flaresolverr_container = match env.container_name_var("FLARESOLVERR_CONTAINER") {
        Ok(value) => value,
        Err(error) => return Err(error),
    };
    Ok(
        PterodactylConfig {
            panel_origin,
            server_id,
            api_token,
            power_enabled,
            allocation_wait_secs,
            flaresolverr_url,
            flaresolverr_container,
            orbctl_path: env.nonempty_var_or("ORBSTACK_BIN", "/opt/homebrew/bin/orbctl"),
            docker_path: env.nonempty_var_or("DOCKER_BIN", "/usr/local/bin/docker"),
        },
    )
}

/// The view of all settings or of the error among them.
pub open spec fn settings_view(result: Result<Config, ConfigError>) -> Result<Config<Seq<char>, Set<Seq<char>>>, ConfigError<Seq<char>>> {
    match result {
        Ok(config) => Ok(config@),
        Err(error) => Err(error@),
    }
}

impl Config<String, UserIds> {
    /// Reads all settings, up to the first that cannot be used.
    pub fn from_env(env: &Environment) -> (r: Result<Config, ConfigError>)
        ensures
            settings_view(r) == settings(*env),
    {
        let discord_token = match env.required_var("DISCORD_TOKEN") {
            Ok(value) => value,
            Err(error) => return Err(error),
        };
        let kind = match env.provider_kind_var("SERVER_PROVIDER") {
            Ok(value) => value,
            Err(error) => return Err(error),
        };
        let provider = match kind {
            ServerProviderKind::Aternos => match aternos_config(env) {
                Ok(config) => ProviderConfig::Aternos(config),
                Err(error) => return Err(error),
            },
            ServerProviderKind::Pterodactyl => match pterodactyl_config(env) {
                Ok(config) => ProviderConfig::Pterodactyl(config),
                Err(error) => return Err(error),
            },
        };
        let minecraft_server_addr = env.var_or("MINECRAFT_SERVER_ADDR", "localhost:25565");
        if let Err(error) = env.bool_var("BUTLER_COLOR", true) {
            return Err(error);
        }
        let start_wait_online_secs: u64 = match env.bounded_positive_u64_var(
            "START_WAIT_ONLINE_SECS",
            600,
            MAX_WAIT_SECS,
        ) {
            Ok(value) => value,
            Err(error) => return Err(error),
        };
        let run_history_limit: usize = match env.usize_var("RUN_HISTORY_LIMIT", 20) {
            Ok(value) => value,
            Err(error) => return Err(error),
        };
        let artifact_capture = match env.artifact_capture_var(
            "ARTIFACT_CAPTURE",
            ArtifactCapture::Screenshots,
        ) {
            Ok(value) => value,
            Err(error) => return Err(error),
        };
        let attach_screenshots = match env.bool_var("BUTLER_ATTACH_SCREENSHOTS", true) {
            Ok(value) => value,
            Err(error) => return Err(error),
        };
        let persist_run_events = match env.bool_var("BUTLER_PERSIST_RUN_EVENTS", true) {
            Ok(value) => value,
            Err(error) => return Err(error),
        };
        let redact_run_events = match env.bool_var("BUTLER_REDACT_RUN_EVENTS", true) {
            Ok(value) => value,
            Err(error) => return Err(error),
        };
        let owner_user_ids = match env.owner_user_ids_var("BUTLER_OWNER_IDS") {
            Ok(value) => value,
            Err(error) => return Err(error),
        };
        Ok(
            Config {
                discord_token,
                provider,
                minecraft_server_addr,
                start_wait_online_secs,
                run_history_limit,
                artifact_dir: env.var_or("ARTIFACT_DIR", "artifacts/runs"),
                artifact_capture,
                attach_screenshots,
                persist_run_events,
                redact_run_events,
                owner_user_ids,
            },
        )
    }
}

/// What is not set is safe: power actions are off, and recorded events are
/// kept without the identities in them.
pub proof fn unset_variables_are_safe(env: Environment)
    requires
        settings(env) is Ok,
    ensures
        env.value("BUTLER_PERSIST_RUN_EVENTS"@) is None ==> settings(env)->Ok_0.persist_run_events,
        env.value("BUTLER_REDACT_RUN_EVENTS"@) is None ==> settings(env)->Ok_0.redact_run_events,
        env.value("BUTLER_OWNER_IDS"@) is None ==> settings(env)->Ok_0.owner_user_ids == Set::<
            Seq<char>,
        >::empty(),
        env.value("PTERODACTYL_POWER_ENABLED"@) is None ==> (settings(env)->Ok_0.provider matches
            ProviderConfig::Pterodactyl(config) ==> !config.power_enabled),
{
    reveal_strlit("");
    assert(""@ =~= Seq::<char>::empty());
    reveal_with_fuel(crate::config::ids_among, 2);
    assert(crate::text::split_on(""@, ',') =~= seq![""@]);
    assert(seq![""@].drop_last() =~= Seq::<Seq<char>>::empty());
    assert(trim(""@).len() == 0);
}

/// Each setting is read from its own variable, or has its default; what is set but cannot
/// be used, and what is missing but needed, stops the bot from coming up.
pub proof fn settings_come_from_their_variables(env: Environment)
    ensures
        settings(env) matches Ok(config) ==> {
            &&& env.value("DISCORD_TOKEN"@) == Some(config.discord_token)
            &&& env.value("MINECRAFT_SERVER_ADDR"@) matches Some(address) ==> config.minecraft_server_addr == address
            &&& env.value("MINECRAFT_SERVER_ADDR"@) is None ==> config.minecraft_server_addr == "localhost:25565"@
            &&& env.value("ARTIFACT_DIR"@) matches Some(dir) ==> config.artifact_dir == dir
            &&& env.value("ARTIFACT_DIR"@) is None ==> config.artifact_dir == "artifacts/runs"@
            &&& crate::config::bounded_value(env.value("START_WAIT_ONLINE_SECS"@), 600, 3_600) == Ok::<
                nat,
                ValueError<Seq<char>>,
            >(config.start_wait_online_secs as nat)
            &&& crate::config::number_value(env.value("RUN_HISTORY_LIMIT"@), 20, usize::MAX as nat) == Ok::<
                nat,
                ValueError<Seq<char>>,
            >(config.run_history_limit as nat)
            &&& match env.value("ARTIFACT_CAPTURE"@) {
                Some(mode) => crate::config::capture_value(mode) == Ok::<ArtifactCapture, ValueError<Seq<char>>>(
                    config.artifact_capture,
                ),
                None => config.artifact_capture == ArtifactCapture::Screenshots,
            }
            &&& crate::config::bool_value(env.value("BUTLER_ATTACH_SCREENSHOTS"@), true) == Ok::<
                bool,
                ValueError<Seq<char>>,
            >(config.attach_screenshots)
            &&& crate::config::bool_value(env.value("BUTLER_PERSIST_RUN_EVENTS"@), true) == Ok::<
                bool,
                ValueError<Seq<char>>,
            >(config.persist_run_events)
            &&& crate::config::bool_value(env.value("BUTLER_REDACT_RUN_EVENTS"@), true) == Ok::<
                bool,
                ValueError<Seq<char>>,
            >(config.redact_run_events)
            &&& env.value("BUTLER_OWNER_IDS"@) matches Some(owners) ==> crate::config::owner_ids(owners) == Ok::<
                Set<Seq<char>>,
                ValueError<Seq<char>>,
            >(config.owner_user_ids)
            &&& crate::config::bool_value(env.value("BUTLER_COLOR"@), true) is Ok
            &&& env.value("SERVER_PROVIDER"@) matches Some(kind) && match config.provider {
                ProviderConfig::Aternos(_) => crate::config::reads(trim(kind), "aternos"@),
                ProviderConfig::Pterodactyl(_) => crate::config::reads(trim(kind), "pterodactyl"@),
            }
        },
{
    if let Some(kind) = env.value("SERVER_PROVIDER"@) {
        crate::config::modes_are_read_from_words(trim(kind));
    }
}

/// The settings of either provider are read from its own variables, or have their
/// defaults.
pub proof fn providers_have_their_own_variables(env: Environment)
    ensures
        settings(env) matches Ok(config) ==> match config.provider {
            ProviderConfig::Aternos(aternos) => {
                &&& env.value("ATERNOS_USER"@) == Some(aternos.user)
                &&& env.value("ATERNOS_PASS"@) == Some(aternos.password)
                &&& crate::config::bool_value(env.value("HEADLESS"@), true) == Ok::<bool, ValueError<Seq<char>>>(
                    aternos.headless,
                )
                &&& aternos.server_id == (if env.nonempty("ATERNOS_SERVER_ID"@) is Some {
                    env.nonempty("ATERNOS_SERVER_ID"@)
                } else {
                    env.nonempty("SERVER_ID"@)
                })
                &&& aternos.chrome_path == env.nonempty("CHROME"@)
            },
            ProviderConfig::Pterodactyl(panel) => {
                &&& env.value("PTERODACTYL_PANEL_URL"@) matches Some(url) && crate::config::panel_origin(url_of(trim(url)))
                    == Ok::<ParsedUrl<Seq<char>>, ValueError<Seq<char>>>(panel.panel_origin)
                &&& env.value("PTERODACTYL_SERVER_ID"@) matches Some(id) && panel.server_id == trim(id)
                    && crate::pterodactyl::is_server_reference(trim(id))
                &&& env.value("PTERODACTYL_API_TOKEN"@) matches Some(token) && panel.api_token == trim(token) && trim(
                    token,
                ).len() > 0
                &&& crate::config::bool_value(env.value("PTERODACTYL_POWER_ENABLED"@), false) == Ok::<
                    bool,
                    ValueError<Seq<char>>,
                >(panel.power_enabled)
                &&& crate::config::bounded_value(env.value("PTERODACTYL_ALLOCATION_WAIT_SECS"@), 1_200, 3_600) == Ok::<
                    nat,
                    ValueError<Seq<char>>,
                >(panel.allocation_wait_secs as nat)
                &&& crate::config::is_container_name(panel.flaresolverr_container)
                &&& panel.flaresolverr_container == (match env.nonempty("FLARESOLVERR_CONTAINER"@) {
                    Some(name) => name,
                    None => "flaresolverr"@,
                })
                &&& crate::config::flaresolverr_origin(
                    url_of(
                        match env.nonempty("FLARESOLVERR_URL"@) {
                            Some(url) => url,
                            None => "http://127.0.0.1:8191/"@,
                        },
                    ),
                ) == Ok::<ParsedUrl<Seq<char>>, ValueError<Seq<char>>>(panel.flaresolverr_url)
            },
        },
{
}

/// A variable that is set to blanks counts as unset where blanks are of no use, and its
/// value is trimmed.
pub proof fn blank_variables_are_unset(env: Environment, name: Seq<char>)
    ensures
        env.value(name) is None ==> env.nonempty(name) is None,
        env.value(name) matches Some(value) ==> {
            &&& trim(value).len() == 0 ==> env.nonempty(name) is None
            &&& trim(value).len() > 0 ==> env.nonempty(name) == Some(trim(value))
        },
{
}

/// The first of several variables of one name counts, and others do not matter.
pub proof fn first_variable_of_a_name_counts(vars: Seq<(String, String)>, name: Seq<char>, at: int)
    ensures
        0 <= at < vars.len() && vars[at].0@ == name && (forall|i: int| 0 <= i < at ==> (#[trigger] vars[i]).0@ != name)
            ==> lookup(vars, name) == Some(vars[at].1@),
        (forall|i: int| 0 <= i < vars.len() ==> (#[trigger] vars[i]).0@ != name) ==> lookup(vars, name) is None,
    decreases vars.len(),
{
    if vars.len() > 0 {
        let rest = vars.skip(1);
        first_variable_of_a_name_counts(rest, name, at - 1);
        if 0 < at < vars.len() && (forall|i: int| 0 <= i < at ==> (#[trigger] vars[i]).0@ != name) {
            assert(vars[0].0@ != name);
            assert forall|i: int| 0 <= i < at - 1 implies (#[trigger] rest[i]).0@ != name by {
                assert(rest[i] == vars[i + 1]);
            }
        }
        if forall|i: int| 0 <= i < vars.len() ==> (#[trigger] vars[i]).0@ != name {
            assert(vars[0].0@ != name);
            assert forall|i: int| 0 <= i < rest.len() implies (#[trigger] rest[i]).0@ != name by {
                assert(rest[i] == vars[i + 1]);
            }
        }
    }
}

} // verus!
