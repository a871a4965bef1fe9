//! What every hosting provider reports: the outcome of a start, its failures
//! and its progress.
//!
//! The types that carry text take the text's type as a parameter. Programs use
//! them with `String`, the default; contracts speak of the same type over
//! `Seq<char>`, which is the view.

use vstd::prelude::*;
use crate::text;
use crate::text::opt_text;

verus! {

/// How a provider answered a start request.
#[derive(Clone, Copy, Debug, PartialEq, Eq, Structural)]
pub enum StartOutcome {
    StartClicked,
    DashboardChanged,
    StartRequested,
    AlreadyActive,
}

impl StartOutcome {
    /// The name under which the outcome is shown.
    pub open spec fn name(self) -> Seq<char> {
        match self {
            StartOutcome::StartClicked => "StartClicked"@,
            StartOutcome::DashboardChanged => "DashboardChanged"@,
            StartOutcome::StartRequested => "StartRequested"@,
            StartOutcome::AlreadyActive => "AlreadyActive"@,
        }
    }

    /// The name under which the outcome is shown.
    pub fn to_string(&self) -> (r: String)
        ensures
            r@ == self.name(),
    {
        match self {
            StartOutcome::StartClicked => "StartClicked".to_owned(),
            StartOutcome::DashboardChanged => "DashboardChanged".to_owned(),
            StartOutcome::StartRequested => "StartRequested".to_owned(),
            StartOutcome::AlreadyActive => "AlreadyActive".to_owned(),
        }
    }
}

/// A start that the provider accepted.
#[verifier::ext_equal]
#[derive(Clone, Debug)]
pub struct ProviderStartResult<T = String> {
    pub outcome: StartOutcome,
    pub provider_status: T,
    pub minecraft_address: Option<T>,
    pub screenshot_path: Option<T>,
    pub detail_artifact_path: Option<T>,
}

impl View for ProviderStartResult<String> {
    type V = ProviderStartResult<Seq<char>>;

    open spec fn view(&self) -> ProviderStartResult<Seq<char>> {
        ProviderStartResult {
            outcome: self.outcome,
            provider_status: self.provider_status@,
            minecraft_address: opt_text(self.minecraft_address),
            screenshot_path: opt_text(self.screenshot_path),
            detail_artifact_path: opt_text(self.detail_artifact_path),
        }
    }
}

/// A change at the provider of which it is not known whether it happened.
#[derive(Clone, Copy, Debug, PartialEq, Eq, Structural)]
pub enum ProviderMutation {
    Nothing,
    WakeAllocation,
    PowerStart,
    BrowserStart,
}

impl Default for ProviderMutation {
    fn default() -> (r: Self)
        ensures
            r == ProviderMutation::Nothing,
    {
        ProviderMutation::Nothing
    }
}

impl ProviderMutation {
    /// Whether the change, had it happened, would have started the server.
    pub open spec fn starts_server(self) -> bool {
        self == ProviderMutation::PowerStart || self == ProviderMutation::BrowserStart
    }

    /// Whether the change, had it happened, would have started the server.
    pub fn may_have_started_server(self) -> (r: bool)
        ensures
            r == self.starts_server(),
    {
        matches!(self, ProviderMutation::PowerStart | ProviderMutation::BrowserStart)
    }
}

/// A start that did not succeed.
#[verifier::ext_equal]
#[derive(Clone, Debug)]
pub struct ProviderStartFailure<T = String> {
    pub error_class: T,
    pub message: T,
    pub screenshot_path: Option<T>,
    pub detail_artifact_path: Option<T>,
    pub minecraft_address: Option<T>,
    pub uncertain_mutation: ProviderMutation,
    pub retryable: bool,
}

impl View for ProviderStartFailure<String> {
    type V = ProviderStartFailure<Seq<char>>;

    open spec fn view(&self) -> ProviderStartFailure<Seq<char>> {
        ProviderStartFailure {
            error_class: self.error_class@,
            message: self.message@,
            screenshot_path: opt_text(self.screenshot_path),
            detail_artifact_path: opt_text(self.detail_artifact_path),
            minecraft_address: opt_text(self.minecraft_address),
            uncertain_mutation: self.uncertain_mutation,
            retryable: self.retryable,
        }
    }
}

impl ProviderStartFailure<String> {
    /// The class and the message, as they are logged.
    pub fn to_string(&self) -> (r: String)
        ensures
            r@ == self@.error_class + ": "@ + self@.message,
    {
        text::cat3(self.error_class.as_str(), ": ", self.message.as_str())
    }

    /// A copy of the failure.
    pub fn copied(&self) -> (r: Self)
        ensures
            r@ == self@,
    {
        ProviderStartFailure {
            error_class: self.error_class.clone(),
            message: self.message.clone(),
            screenshot_path: text::copy_opt(&self.screenshot_path),
            detail_artifact_path: text::copy_opt(&self.detail_artifact_path),
            minecraft_address: text::copy_opt(&self.minecraft_address),
            uncertain_mutation: self.uncertain_mutation,
            retryable: self.retryable,
        }
    }
}

/// A failure that is not worth repeating, without screenshot or address.
pub open spec fn failure_view(
    error_class: Seq<char>,
    message: Seq<char>,
    detail_artifact_path: Option<Seq<char>>,
    uncertain_mutation: ProviderMutation,
) -> ProviderStartFailure<Seq<char>> {
    ProviderStartFailure {
        error_class,
        message,
        screenshot_path: None,
        detail_artifact_path,
        minecraft_address: None,
        uncertain_mutation,
        retryable: false,
    }
}

/// A failure that is not worth repeating, without screenshot or address.
pub fn provider_failure(
    error_class: &str,
    message: &str,
    detail_artifact_path: Option<String>,
    uncertain_mutation: ProviderMutation,
) -> (r: ProviderStartFailure)
    ensures
        r@ == failure_view(error_class@, message@, opt_text(detail_artifact_path), uncertain_mutation),
{
    ProviderStartFailure {
        error_class: error_class.to_owned(),
        message: message.to_owned(),
        screenshot_path: None,
        detail_artifact_path,
        minecraft_address: None,
        uncertain_mutation,
        retryable: false,
    }
}

/// A failure without uncertain change that is worth repeating.
pub fn retryable_provider_failure(error_class: &str, message: &str) -> (r: ProviderStartFailure)
    ensures
        r@ == (ProviderStartFailure {
            retryable: true,
            ..failure_view(error_class@, message@, None, ProviderMutation::Nothing)
        }),
{
    let mut failure = provider_failure(error_class, message, None, ProviderMutation::Nothing);
    failure.retryable = true;
    failure
}

/// `failure` with the given Minecraft address.
pub fn attach_minecraft_address(
    failure: ProviderStartFailure,
    minecraft_address: &Option<String>,
) -> (r: ProviderStartFailure)
    ensures
        r@ == (ProviderStartFailure { minecraft_address: opt_text(*minecraft_address), ..failure@ }),
{
    let mut failure = failure;
    failure.minecraft_address = text::copy_opt(minecraft_address);
    failure
}

/// What a start is busy with.
#[derive(Clone, Copy, Debug, PartialEq, Eq, Structural)]
pub enum ProviderProgressStage {
    SolvingChallenge,
    RequestingAllocation,
    WaitingForAllocation,
    RequestingPower,
}

impl ProviderProgressStage {
    /// The name under which the stage is shown.
    pub open spec fn name(self) -> Seq<char> {
        match self {
            ProviderProgressStage::SolvingChallenge => "SolvingChallenge"@,
            ProviderProgressStage::RequestingAllocation => "RequestingAllocation"@,
            ProviderProgressStage::WaitingForAllocation => "WaitingForAllocation"@,
            ProviderProgressStage::RequestingPower => "RequestingPower"@,
        }
    }

    /// The name under which the stage is shown.
    pub fn to_string(&self) -> (r: String)
        ensures
            r@ == self.name(),
    {
        match self {
            ProviderProgressStage::SolvingChallenge => "SolvingChallenge".to_owned(),
            ProviderProgressStage::RequestingAllocation => "RequestingAllocation".to_owned(),
            ProviderProgressStage::WaitingForAllocation => "WaitingForAllocation".to_owned(),
            ProviderProgressStage::RequestingPower => "RequestingPower".to_owned(),
        }
    }
}

/// One progress report of a start.
#[verifier::ext_equal]
#[derive(Clone, Debug, PartialEq, Eq)]
pub struct ProviderProgress<T = String> {
    pub stage: ProviderProgressStage,
    pub detail: T,
}

impl View for ProviderProgress<String> {
    type V = ProviderProgress<Seq<char>>;

    open spec fn view(&self) -> ProviderProgress<Seq<char>> {
        ProviderProgress { stage: self.stage, detail: self.detail@ }
    }
}

/// The view of an optional progress report.
pub open spec fn opt_progress(value: Option<ProviderProgress>) -> Option<ProviderProgress<Seq<char>>> {
    match value {
        Some(progress) => Some(progress@),
        None => None,
    }
}

/// A progress report.
pub fn progress(stage: ProviderProgressStage, detail: &str) -> (r: Option<ProviderProgress>)
    ensures
        opt_progress(r) == Some(ProviderProgress { stage, detail: detail@ }),
{
    Some(ProviderProgress { stage, detail: detail.to_owned() })
}

} // verus!
