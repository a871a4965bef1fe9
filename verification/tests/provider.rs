use butler::provider::{
    attach_minecraft_address, provider_failure, retryable_provider_failure, ProviderMutation,
    ProviderStartFailure, ProviderStartResult, StartOutcome,
};

fn started(
    result: &Result<ProviderStartResult, ProviderStartFailure>,
) -> Result<ProviderStartResult, ProviderStartFailure> {
    result.clone()
}

#[test]
fn fake_provider_returns_neutral_success_result() {
    let result = started(&Ok(ProviderStartResult {
        outcome: StartOutcome::StartClicked,
        provider_status: "Online".to_string(),
        minecraft_address: None,
        screenshot_path: Some("shot.png".to_string()),
        detail_artifact_path: None,
    }))
    .unwrap();

    assert_eq!(result.outcome, StartOutcome::StartClicked);
    assert_eq!(result.provider_status, "Online");
    assert_eq!(result.screenshot_path.as_deref(), Some("shot.png"));
}

#[test]
fn fake_provider_returns_neutral_failure_result() {
    let failure = started(&Err(ProviderStartFailure {
        error_class: "StartNotAccepted".to_string(),
        message: "still offline".to_string(),
        screenshot_path: None,
        detail_artifact_path: None,
        minecraft_address: None,
        uncertain_mutation: ProviderMutation::Nothing,
        retryable: false,
    }))
    .unwrap_err();

    assert_eq!(failure.error_class, "StartNotAccepted");
    assert_eq!(failure.to_string(), "StartNotAccepted: still offline");
}

#[test]
fn only_start_mutations_trigger_minecraft_verification() {
    assert!(!ProviderMutation::Nothing.may_have_started_server());
    assert!(!ProviderMutation::WakeAllocation.may_have_started_server());
    assert!(ProviderMutation::PowerStart.may_have_started_server());
    assert!(ProviderMutation::BrowserStart.may_have_started_server());
    assert_eq!(ProviderMutation::default(), ProviderMutation::Nothing);
}

#[test]
fn failures_are_built_with_their_doubt() {
    let failure = provider_failure("Class", "message", None, ProviderMutation::PowerStart);
    assert_eq!(failure.uncertain_mutation, ProviderMutation::PowerStart);
    assert!(!failure.retryable);
    assert!(retryable_provider_failure("Class", "message").retryable);
    let addressed = attach_minecraft_address(failure, &Some("host:1".to_string()));
    assert_eq!(addressed.minecraft_address.as_deref(), Some("host:1"));
}
