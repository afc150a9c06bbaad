use fibonacci_script::errors::UsageError;
use fibonacci_script::selector::{
    check_credentials, is_network_request, resolve_run_mode, select_backend, BackendKind,
    CredentialStatus, NetworkMode, RunMode,
};

#[test]
fn conflicting_mode_flags_are_a_usage_error() {
    assert_eq!(resolve_run_mode(true, true, false), Err(UsageError));
    assert_eq!(resolve_run_mode(false, false, false), Err(UsageError));
}

#[test]
fn each_single_mode_flag_is_accepted() {
    assert_eq!(resolve_run_mode(true, false, false), Ok(RunMode::Execute));
    assert_eq!(resolve_run_mode(false, true, false), Ok(RunMode::ProveSync));
    assert_eq!(resolve_run_mode(false, false, true), Ok(RunMode::ProveAsync));
}

#[test]
fn async_flag_lifts_the_exclusivity_check() {
    assert_eq!(resolve_run_mode(true, true, true), Ok(RunMode::Execute));
    assert_eq!(resolve_run_mode(false, true, true), Ok(RunMode::ProveAsync));
}

#[test]
fn async_proving_forces_the_remote_backend() {
    let choice = select_backend(true, None, &None);
    assert_eq!(choice.kind, BackendKind::Remote(NetworkMode::Reserved));
    assert!(choice.forced_remote);
    assert!(choice.mode_defaulted);
    assert!(!choice.from_environment);
}

#[test]
fn explicit_network_mode_selects_remote() {
    let choice = select_backend(false, Some(NetworkMode::Mainnet), &None);
    assert_eq!(choice.kind, BackendKind::Remote(NetworkMode::Mainnet));
    assert!(!choice.forced_remote);
    assert!(!choice.mode_defaulted);
    assert!(!choice.from_environment);
}

#[test]
fn network_environment_value_selects_remote_with_reserved_default() {
    let env = Some(String::from("network"));
    assert!(is_network_request(&env));
    let choice = select_backend(false, None, &env);
    assert_eq!(choice.kind, BackendKind::Remote(NetworkMode::Reserved));
    assert!(!choice.forced_remote);
    assert!(choice.mode_defaulted);
    assert!(choice.from_environment);
}

#[test]
fn other_or_absent_environment_value_selects_local() {
    assert!(!is_network_request(&Some(String::from("cpu"))));
    assert!(!is_network_request(&None));
    assert_eq!(select_backend(false, None, &Some(String::from("cpu"))).kind, BackendKind::Local);
    assert_eq!(select_backend(false, None, &None).kind, BackendKind::Local);
}

#[test]
fn explicit_mode_wins_over_the_async_default() {
    let choice = select_backend(true, Some(NetworkMode::Mainnet), &Some(String::from("cpu")));
    assert_eq!(choice.kind, BackendKind::Remote(NetworkMode::Mainnet));
    assert!(!choice.forced_remote);
    assert!(!choice.mode_defaulted);
}

#[test]
fn missing_credential_on_remote_is_an_advisory_not_an_error() {
    assert_eq!(check_credentials(true, false, false), CredentialStatus::Missing);
}

#[test]
fn present_credentials_are_reported_in_order() {
    assert_eq!(check_credentials(true, true, false), CredentialStatus::Primary);
    assert_eq!(check_credentials(true, true, true), CredentialStatus::Primary);
    assert_eq!(check_credentials(true, false, true), CredentialStatus::Secondary);
    assert_eq!(check_credentials(false, false, false), CredentialStatus::NotApplicable);
}
