//! The local container that solves browser challenges: what its state means,
//! when it is started, restarted and stopped, and who may do so.

use vstd::prelude::*;
use crate::environment::PterodactylConfig;
use crate::json::{json_document, Json, JsonTree};
use crate::pterodactyl::is_hex_digit;
use crate::terminal::{clean, cleaned};
use crate::text;
use crate::text::{begins, decimal, opt_str, opt_text, texts, trim};

verus! {

// ---------------------------------------------------------------------------
// What the runtime reports
// ---------------------------------------------------------------------------

/// The state of the virtual machine that runs containers.
#[derive(Clone, Copy, Debug, PartialEq, Eq, Structural)]
pub enum OrbStackStatus {
    Running,
    Starting,
    Stopped,
}

/// The state that an exit code of the status command stands for.
pub fn parse_orb_status(code: Option<i32>) -> (r: Result<OrbStackStatus, &'static str>)
    ensures
        match code {
            Some(0) => r == Ok::<OrbStackStatus, &'static str>(OrbStackStatus::Running),
            Some(1) => r == Ok::<OrbStackStatus, &'static str>(OrbStackStatus::Stopped),
            Some(2) => r == Ok::<OrbStackStatus, &'static str>(OrbStackStatus::Starting),
            _ => r matches Err(message) && message@
                == "OrbStackUnavailable: could not determine OrbStack status"@,
        },
{
    match code {
        Some(0) => Ok(OrbStackStatus::Running),
        Some(1) => Ok(OrbStackStatus::Stopped),
        Some(2) => Ok(OrbStackStatus::Starting),
        _ => Err("OrbStackUnavailable: could not determine OrbStack status"),
    }
}

/// What the solver's readiness document says when it is ready.
pub open spec fn says_ready(document: Option<JsonTree>) -> bool {
    match document {
        Some(tree) => tree.text_member("msg"@) == Some("FlareSolverr is ready!"@),
        None => false,
    }
}

/// Whether a readiness document says that the solver is ready.
pub fn is_ready_document(document: &Option<Json>) -> (r: bool)
    ensures
        r == says_ready(crate::json::opt_json(*document)),
{
    match document {
        Some(json) => match json.text_of("msg") {
            Some(message) => text::same(message.as_str(), "FlareSolverr is ready!"),
            None => false,
        },
        None => false,
    }
}

/// Whether a readiness body says that the solver is ready.
pub fn is_ready_body(body: &[u8]) -> (r: bool)
    ensures
        r == says_ready(json_document(body@)),
{
    is_ready_document(&Json::parse(body))
}

/// One port of the host that leads into a container.
#[derive(Clone, Debug)]
pub struct DockerPortBinding {
    pub host_ip: String,
    pub host_port: String,
}

/// What an inspection says of a container: labels by name and value, bindings
/// by the container's port.
#[derive(Clone, Debug)]
pub struct DockerContainerInspection {
    pub id: String,
    pub running: bool,
    pub image: String,
    pub labels: Vec<(String, String)>,
    pub restart_policy: String,
    pub port_bindings: Vec<(String, Option<Vec<DockerPortBinding>>)>,
}

/// A container and whether it runs.
#[verifier::ext_equal]
#[derive(Clone, Debug, PartialEq, Eq)]
pub struct ContainerSnapshot<T = String> {
    pub id: T,
    pub running: bool,
}

impl View for ContainerSnapshot<String> {
    type V = ContainerSnapshot<Seq<char>>;

    open spec fn view(&self) -> ContainerSnapshot<Seq<char>> {
        ContainerSnapshot { id: self.id@, running: self.running }
    }
}

/// The value of the first label of that name.
pub open spec fn label(labels: Seq<(String, String)>, name: Seq<char>) -> Option<Seq<char>> {
    crate::environment::lookup(labels, name)
}

/// The bindings of the first entry for that port.
pub open spec fn bindings_of(
    bindings: Seq<(String, Option<Vec<DockerPortBinding>>)>,
    port: Seq<char>,
) -> Seq<DockerPortBinding>
    decreases bindings.len(),
{
    if bindings.len() == 0 {
        Seq::empty()
    } else if bindings[0].0@ == port {
        match bindings[0].1 {
            Some(list) => list@,
            None => Seq::empty(),
        }
    } else {
        bindings_of(bindings.skip(1), port)
    }
}

/// Whether a container has the secured profile: one binding, to the local
/// machine and the expected port; a pinned image; the compose service; no
/// restart by the runtime.
pub open spec fn is_secured(inspection: DockerContainerInspection, host_port: u16) -> bool {
    let bindings = bindings_of(inspection.port_bindings@, "8191/tcp"@);
    &&& bindings.len() == 1
    &&& bindings[0].host_ip@ == "127.0.0.1"@
    &&& bindings[0].host_port@ == decimal(host_port as nat)
    &&& begins(inspection.image@, "ghcr.io/flaresolverr/flaresolverr@sha256:"@)
    &&& label(inspection.labels@, "com.docker.compose.service"@) == Some("flaresolverr"@)
    &&& inspection.restart_policy@ == "no"@
}

/// Whether a text is one or more hexadecimal digits.
pub open spec fn is_hex(value: Seq<char>) -> bool {
    value.len() > 0 && forall|i: int| 0 <= i < value.len() ==> is_hex_digit(#[trigger] value[i])
}

fn hex(value: &str) -> (r: bool)
    ensures
        r == is_hex(value@),
{
    let chars = text::chars_of(value);
    if chars.len() == 0 {
        return false;
    }
    let mut i: usize = 0;
    while i < chars.len()
        invariant
            i <= chars@.len(),
            chars@ == value@,
            forall|j: int| 0 <= j < i ==> is_hex_digit(#[trigger] chars@[j]),
        decreases chars@.len() - i,
    {
        let c: char = chars[i];
        if !(('0' <= c && c <= '9') || ('a' <= c && c <= 'f') || ('A' <= c && c <= 'F')) {
            assert(!is_hex_digit(value@[i as int]));
            return false;
        }
        i += 1;
    }
    true
}

/// What an inspection amounts to: the container, or the first reason not to
/// use it. `None` is an inspection that could not be read.
pub open spec fn inspected(
    inspections: Option<Seq<DockerContainerInspection>>,
    host_port: u16,
) -> Result<ContainerSnapshot<Seq<char>>, Seq<char>> {
    match inspections {
        None => Err("FlareSolverrUnavailable: container inspection was not valid JSON"@),
        Some(list) => if list.len() == 0 {
            Err("FlareSolverrUnavailable: container inspection was empty"@)
        } else if !is_secured(list[0], host_port) {
            Err("FlareSolverrConfiguration: container does not match the secured Butler profile"@)
        } else if !is_hex(list[0].id@) {
            Err("FlareSolverrUnavailable: container ID was invalid"@)
        } else {
            Ok(ContainerSnapshot { id: list[0].id@, running: list[0].running })
        },
    }
}

fn find_bindings<'a>(
    bindings: &'a Vec<(String, Option<Vec<DockerPortBinding>>)>,
    port: &str,
) -> (r: Option<&'a Vec<DockerPortBinding>>)
    ensures
        bindings_of(bindings@, port@) == match r {
            Some(list) => list@,
            None => Seq::empty(),
        },
{
    let mut i: usize = 0;
    proof {
        assert(bindings@.skip(0) =~= bindings@);
    }
    while i < bindings.len()
        invariant
            i <= bindings@.len(),
            bindings_of(bindings@, port@) == bindings_of(bindings@.skip(i as int), port@),
        decreases bindings@.len() - i,
    {
        if text::same(bindings[i].0.as_str(), port) {
            return match &bindings[i].1 {
                Some(list) => Some(list),
                None => None,
            };
        }
        proof {
            assert(bindings@.skip(i as int).skip(1) =~= bindings@.skip(i + 1));
        }
        i += 1;
    }
    None
}

fn find_label<'a>(labels: &'a Vec<(String, String)>, name: &str) -> (r: Option<&'a str>)
    ensures
        opt_str(r) == label(labels@, name@),
{
    let mut i: usize = 0;
    proof {
        assert(labels@.skip(0) =~= labels@);
    }
    while i < labels.len()
        invariant
            i <= labels@.len(),
            label(labels@, name@) == label(labels@.skip(i as int), name@),
        decreases labels@.len() - i,
    {
        if text::same(labels[i].0.as_str(), name) {
            return Some(labels[i].1.as_str());
        }
        proof {
            assert(labels@.skip(i as int).skip(1) =~= labels@.skip(i + 1));
        }
        i += 1;
    }
    None
}

/// The view of an inspected container or of the reason not to use it.
pub open spec fn snapshot_view(result: Result<ContainerSnapshot, String>) -> Result<ContainerSnapshot<Seq<char>>, Seq<char>> {
    match result {
        Ok(snapshot) => Ok(snapshot@),
        Err(message) => Err(message@),
    }
}

/// What an inspection amounts to.
pub fn parse_container_inspection(
    inspections: Option<Vec<DockerContainerInspection>>,
    expected_host_port: u16,
) -> (r: Result<ContainerSnapshot, String>)
    ensures
        snapshot_view(r) == inspected(
            match inspections {
                Some(list) => Some(list@),
                None => None,
            },
            expected_host_port,
        ),
{
    let list = match inspections {
        Some(list) => list,
        None => {
            return Err("FlareSolverrUnavailable: container inspection was not valid JSON".to_owned());
        },
    };
    if list.len() == 0 {
        return Err("FlareSolverrUnavailable: container inspection was empty".to_owned());
    }
    let inspection = &list[0];
    let expected_binding = match find_bindings(&inspection.port_bindings, "8191/tcp") {
        Some(bindings) => bindings.len() == 1 && text::same(
            bindings[0].host_ip.as_str(),
            "127.0.0.1",
        ) && text::same(
            bindings[0].host_port.as_str(),
            text::decimal_u64(expected_host_port as u64).as_str(),
        ),
        None => false,
    };
    let pinned_image = text::starts_with(
        inspection.image.as_str(),
        "ghcr.io/flaresolverr/flaresolverr@sha256:",
    );
    let compose_service = match find_label(&inspection.labels, "com.docker.compose.service") {
        Some(value) => text::same(value, "flaresolverr"),
        None => false,
    };
    if !expected_binding || !pinned_image || !compose_service || !text::same(
        inspection.restart_policy.as_str(),
        "no",
    ) {
        return Err(
            "FlareSolverrConfiguration: container does not match the secured Butler profile".to_owned(),
        );
    }
    if !hex(inspection.id.as_str()) {
        return Err("FlareSolverrUnavailable: container ID was invalid".to_owned());
    }
    Ok(ContainerSnapshot { id: inspection.id.clone(), running: inspection.running })
}

/// The container that an ownership marker names, where it names one.
pub fn read_ownership_marker(contents: &str) -> (r: Option<String>)
    ensures
        opt_text(r) == if is_hex(trim(contents@)) {
            Some(trim(contents@))
        } else {
            None
        },
{
    let value = text::trimmed(contents);
    if hex(value.as_str()) {
        Some(value)
    } else {
        None
    }
}

/// What an ownership marker holds for a container.
pub fn ownership_marker_text(container_id: &str) -> (r: String)
    ensures
        r@ == container_id@ + "\n"@,
{
    text::cat2(container_id, "\n")
}

// ---------------------------------------------------------------------------
// Recovery
// ---------------------------------------------------------------------------

/// How an unhealthy container is recovered.
#[derive(Clone, Copy, Debug, PartialEq, Eq, Structural)]
pub enum ContainerRecoveryAction {
    StartOwned,
    RestartOwned,
    StartAndAdopt,
    RefuseUnownedRunning,
    IdentityChanged,
}

/// How an unhealthy container is recovered: an owned one is started or
/// restarted, a stopped one of nobody is adopted, and any other is left alone.
pub open spec fn recovery(
    container: ContainerSnapshot<Seq<char>>,
    owned: Option<Seq<char>>,
) -> ContainerRecoveryAction {
    match owned {
        Some(id) => if container.id != id {
            ContainerRecoveryAction::IdentityChanged
        } else if container.running {
            ContainerRecoveryAction::RestartOwned
        } else {
            ContainerRecoveryAction::StartOwned
        },
        None => if container.running {
            ContainerRecoveryAction::RefuseUnownedRunning
        } else {
            ContainerRecoveryAction::StartAndAdopt
        },
    }
}

/// How an unhealthy container is recovered.
pub fn container_recovery_action(
    container: &ContainerSnapshot,
    owned_container_id: Option<&str>,
) -> (r: ContainerRecoveryAction)
    ensures
        r == recovery(container@, opt_str(owned_container_id)),
{
    match owned_container_id {
        Some(id) => {
            if !text::same(container.id.as_str(), id) {
                ContainerRecoveryAction::IdentityChanged
            } else if container.running {
                ContainerRecoveryAction::RestartOwned
            } else {
                ContainerRecoveryAction::StartOwned
            }
        },
        None => {
            if container.running {
                ContainerRecoveryAction::RefuseUnownedRunning
            } else {
                ContainerRecoveryAction::StartAndAdopt
            }
        },
    }
}

/// Whether the container that stands where `expected_id` was may be stopped.
pub fn may_stop_owned(current: &ContainerSnapshot, expected_id: &str) -> (r: Result<(), String>)
    ensures
        current@.id == expected_id@ ==> r is Ok,
        current@.id != expected_id@ ==> (r matches Err(message) && message@
            == "FlareSolverrCleanupFailed: configured container identity changed"@),
{
    if text::same(current.id.as_str(), expected_id) {
        Ok(())
    } else {
        Err("FlareSolverrCleanupFailed: configured container identity changed".to_owned())
    }
}

// ---------------------------------------------------------------------------
// Commands
// ---------------------------------------------------------------------------

/// What the container runtime is told to do with a container.
#[derive(Clone, Copy, Debug, PartialEq, Eq, Structural)]
pub enum ContainerCommand {
    Inspect,
    Start,
    Stop,
    Restart,
}

/// The arguments of a command.
pub open spec fn command_line(command: ContainerCommand, reference: Seq<char>) -> Seq<Seq<char>> {
    match command {
        ContainerCommand::Inspect => seq!["inspect"@, reference],
        ContainerCommand::Start => seq!["start"@, reference],
        ContainerCommand::Stop => seq!["stop"@, "--time"@, "10"@, reference],
        ContainerCommand::Restart => seq!["restart"@, "--time"@, "10"@, reference],
    }
}

/// The arguments of a command. A container gets ten seconds to stop.
pub fn command_arguments(command: ContainerCommand, reference: &str) -> (r: Vec<String>)
    ensures
        texts(r@) == command_line(command, reference@),
{
    let mut arguments = text::no_texts();
    match command {
        ContainerCommand::Inspect => {
            text::add_text(&mut arguments, "inspect".to_owned());
        },
        ContainerCommand::Start => {
            text::add_text(&mut arguments, "start".to_owned());
        },
        ContainerCommand::Stop => {
            text::add_text(&mut arguments, "stop".to_owned());
            text::add_text(&mut arguments, "--time".to_owned());
            text::add_text(&mut arguments, "10".to_owned());
        },
        ContainerCommand::Restart => {
            text::add_text(&mut arguments, "restart".to_owned());
            text::add_text(&mut arguments, "--time".to_owned());
            text::add_text(&mut arguments, "10".to_owned());
        },
    }
    text::add_text(&mut arguments, reference.to_owned());
    proof {
        assert(texts(arguments@) =~= command_line(command, reference@));
    }
    arguments
}

/// What is said where a command fails.
pub open spec fn command_failure(command: ContainerCommand) -> Seq<char> {
    match command {
        ContainerCommand::Inspect => "FlareSolverrUnavailable: configured container could not be inspected"@,
        ContainerCommand::Start => "FlareSolverrUnavailable: container could not be started"@,
        ContainerCommand::Stop => "FlareSolverrCleanupFailed: container could not be stopped"@,
        ContainerCommand::Restart => "FlareSolverrUnavailable: unhealthy container could not be restarted"@,
    }
}

/// A command ended: it succeeded, or its failure has a name.
pub fn after_command(command: ContainerCommand, succeeded: bool) -> (r: Result<(), String>)
    ensures
        succeeded ==> r is Ok,
        !succeeded ==> (r matches Err(message) && message@ == command_failure(command)),
{
    if succeeded {
        return Ok(());
    }
    Err(
        match command {
            ContainerCommand::Inspect => "FlareSolverrUnavailable: configured container could not be inspected".to_owned(),
            ContainerCommand::Start => "FlareSolverrUnavailable: container could not be started".to_owned(),
            ContainerCommand::Stop => "FlareSolverrCleanupFailed: container could not be stopped".to_owned(),
            ContainerCommand::Restart => "FlareSolverrUnavailable: unhealthy container could not be restarted".to_owned(),
        },
    )
}

/// What the log says of a step that went wrong without ending anything.
pub fn runtime_warning(action: &str, error: &str) -> (r: String)
    ensures
        r@ == action@ + "; error "@ + cleaned(error@),
{
    text::cat3(action, "; error ", clean(error).as_str())
}

// ---------------------------------------------------------------------------
// Waiting
// ---------------------------------------------------------------------------

/// How much of the solver's greeting is read.
pub const READY_BODY_LIMIT: u64 = 4_096;

/// What is said where the virtual machine does not start in time.
pub const ORBSTACK_NOT_READY: &'static str = "OrbStackUnavailable: OrbStack did not become ready before timeout";

/// What is said where the solver does not become ready in time.
pub const FLARESOLVERR_NOT_READY: &'static str = "FlareSolverrUnavailable: readiness endpoint did not become healthy before timeout";

/// How long the virtual machine may take to start.
pub const ORBSTACK_READY_TIMEOUT_MS: u64 = 60_000;

/// How long the solver may take to become ready.
pub const FLARESOLVERR_READY_TIMEOUT_MS: u64 = 45_000;

/// The pause between two looks.
pub const READY_POLL_INTERVAL_MS: u64 = 1_000;

/// How often the solver's health is looked at.
pub const MONITOR_INTERVAL_MS: u64 = 20_000;

/// How many looks in a row must fail before a recovery.
pub const HEALTH_FAILURE_THRESHOLD: u64 = 3;

/// What the first look at the virtual machine leads to.
#[derive(Clone, Copy, Debug, PartialEq, Eq, Structural)]
pub enum OrbStackNext {
    Ready,
    Wait,
    StartThenWait,
}

/// What the first look at the virtual machine leads to.
pub fn after_first_orb_status(status: OrbStackStatus) -> (r: OrbStackNext)
    ensures
        r == match status {
            OrbStackStatus::Running => OrbStackNext::Ready,
            OrbStackStatus::Starting => OrbStackNext::Wait,
            OrbStackStatus::Stopped => OrbStackNext::StartThenWait,
        },
{
    match status {
        OrbStackStatus::Running => OrbStackNext::Ready,
        OrbStackStatus::Starting => OrbStackNext::Wait,
        OrbStackStatus::Stopped => OrbStackNext::StartThenWait,
    }
}

/// What follows in a wait that looks once a second until a deadline.
#[derive(Clone, Copy, Debug, PartialEq, Eq, Structural)]
pub enum PollNext {
    Look,
    Ready,
    Pause { pause_ms: u64 },
    GiveUp,
}

/// What follows in a wait: `seen` is what the look since the last pause saw, if
/// there was one.
pub open spec fn poll_next(now: u64, deadline: u64, seen: Option<bool>) -> PollNext {
    match seen {
        Some(true) => PollNext::Ready,
        Some(false) => PollNext::Pause { pause_ms: READY_POLL_INTERVAL_MS },
        None => if now < deadline {
            PollNext::Look
        } else {
            PollNext::GiveUp
        },
    }
}

/// A wait looks before its deadline only, once a second, and ends with the first look that
/// saw what it waited for, or without one.
pub proof fn waits_look_once_a_second(now: u64, deadline: u64, seen: Option<bool>)
    ensures
        poll_next(now, deadline, seen) is Look <==> seen is None && now < deadline,
        poll_next(now, deadline, seen) is GiveUp <==> seen is None && now >= deadline,
        poll_next(now, deadline, seen) is Ready <==> seen == Some(true),
        seen == Some(false) ==> poll_next(now, deadline, seen) == (PollNext::Pause { pause_ms: 1_000 }),
        ORBSTACK_READY_TIMEOUT_MS == 60_000,
        FLARESOLVERR_READY_TIMEOUT_MS == 45_000,
        MONITOR_INTERVAL_MS == 20_000,
        HEALTH_FAILURE_THRESHOLD == 3,
        READY_BODY_LIMIT == 4_096,
{
}

/// What follows in a wait: `seen` is what the look since the last pause saw, if
/// there was one.
pub fn poll(now: u64, deadline: u64, seen: Option<bool>) -> (r: PollNext)
    ensures
        r == poll_next(now, deadline, seen),
{
    match seen {
        Some(true) => PollNext::Ready,
        Some(false) => PollNext::Pause { pause_ms: READY_POLL_INTERVAL_MS },
        None => {
            if now < deadline {
                PollNext::Look
            } else {
                PollNext::GiveUp
            }
        },
    }
}

// ---------------------------------------------------------------------------
// Supervision
// ---------------------------------------------------------------------------

/// What the supervisor remembers: the container it owns, and how many looks in
/// a row have failed.
#[verifier::ext_equal]
#[derive(Debug)]
pub struct Supervision<T = String> {
    pub owned_container_id: Option<T>,
    pub health_failures: u64,
}

impl View for Supervision<String> {
    type V = Supervision<Seq<char>>;

    open spec fn view(&self) -> Supervision<Seq<char>> {
        Supervision {
            owned_container_id: opt_text(self.owned_container_id),
            health_failures: self.health_failures,
        }
    }
}

impl Supervision<String> {
    /// A look at the solver came back. Whether a recovery is due: at the third
    /// failure in a row, and at each failure after it until one succeeds.
    pub fn after_look(self, ready: bool) -> (r: (Supervision, bool))
        ensures
            r.0@.owned_container_id == self@.owned_container_id,
            ready ==> r.0@.health_failures == 0 && !r.1,
            !ready ==> r.0@.health_failures == (if self@.health_failures < u64::MAX {
                self@.health_failures + 1
            } else {
                u64::MAX as int
            }) && r.1 == (r.0@.health_failures >= HEALTH_FAILURE_THRESHOLD),
    {
        let mut next = self;
        if ready {
            next.health_failures = 0;
            return (next, false);
        }
        if next.health_failures < u64::MAX {
            next.health_failures = next.health_failures + 1;
        }
        let due = next.health_failures >= HEALTH_FAILURE_THRESHOLD;
        (next, due)
    }

    /// A recovery succeeded, perhaps by adopting a container.
    pub fn after_recovery(self, adopted: Option<String>) -> (r: Supervision)
        ensures
            r@.health_failures == 0,
            r@.owned_container_id == match self@.owned_container_id {
                Some(id) => Some(id),
                None => opt_text(adopted),
            },
    {
        let mut next = self;
        if next.owned_container_id.is_none() {
            next.owned_container_id = adopted;
        }
        next.health_failures = 0;
        next
    }
}

/// What the supervisor needs to know of the settings.
#[verifier::ext_equal]
#[derive(Clone, Debug)]
pub struct FlareSolverrRuntimeConfig<T = String> {
    pub flaresolverr_url: T,
    pub flaresolverr_port: u16,
    pub flaresolverr_container: T,
    pub orbctl_path: T,
    pub docker_path: T,
    pub ownership_marker: T,
}

impl View for FlareSolverrRuntimeConfig<String> {
    type V = FlareSolverrRuntimeConfig<Seq<char>>;

    open spec fn view(&self) -> FlareSolverrRuntimeConfig<Seq<char>> {
        FlareSolverrRuntimeConfig {
            flaresolverr_url: self.flaresolverr_url@,
            flaresolverr_port: self.flaresolverr_port,
            flaresolverr_container: self.flaresolverr_container@,
            orbctl_path: self.orbctl_path@,
            docker_path: self.docker_path@,
            ownership_marker: self.ownership_marker@,
        }
    }
}

impl FlareSolverrRuntimeConfig<String> {
    /// What the supervisor needs to know, with its marker at the given path.
    pub fn new(config: &PterodactylConfig, ownership_marker: String) -> (r: FlareSolverrRuntimeConfig)
        ensures
            r@ == (FlareSolverrRuntimeConfig {
                flaresolverr_url: config@.flaresolverr_url.text,
                flaresolverr_port: match config@.flaresolverr_url.port {
                    Some(port) => port,
                    None => 80,
                },
                flaresolverr_container: config@.flaresolverr_container,
                orbctl_path: config@.orbctl_path,
                docker_path: config@.docker_path,
                ownership_marker: ownership_marker@,
            }),
    {
        FlareSolverrRuntimeConfig {
            flaresolverr_url: config.flaresolverr_url.text.clone(),
            flaresolverr_port: match config.flaresolverr_url.port {
                Some(port) => port,
                None => 80,
            },
            flaresolverr_container: config.flaresolverr_container.clone(),
            orbctl_path: config.orbctl_path.clone(),
            docker_path: config.docker_path.clone(),
            ownership_marker,
        }
    }
}

} // verus!
