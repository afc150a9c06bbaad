//! Backend selection and invocation-mode validation: a state machine over
//! configuration values read once at process start, never over runtime data.
//! Selection itself never fails; only a violated mode-flag exclusivity is an
//! error, and a missing credential is a non-fatal advisory.

use vstd::prelude::*;

use crate::errors::UsageError;

verus! {

/// Deployment tier of the remote proving service.
#[derive(Clone, Copy, Debug, PartialEq, Eq, Structural)]
pub enum NetworkMode {
    Mainnet,
    Reserved,
}

/// The backend a run is bound to: the local prover, or the remote service in
/// a specific network mode.
#[derive(Clone, Copy, Debug, PartialEq, Eq, Structural)]
pub enum BackendKind {
    Local,
    Remote(NetworkMode),
}

/// Which of the mutually exclusive invocation modes a run performs.
#[derive(Clone, Copy, Debug, PartialEq, Eq, Structural)]
pub enum RunMode {
    Execute,
    ProveSync,
    ProveAsync,
}

/// The chosen backend, with the facts later stages act on: whether the
/// handle is bound from the environment or built for an explicit mode, and,
/// for diagnostics, whether remote mode was forced by an asynchronous-
/// proving request and whether the network mode fell back to the reserved
/// default.
#[derive(Clone, Copy, Debug, PartialEq, Eq, Structural)]
pub struct BackendChoice {
    pub kind: BackendKind,
    pub from_environment: bool,
    pub forced_remote: bool,
    pub mode_defaulted: bool,
}

/// Presence of the remote-proving credential. Never an error: some remote
/// deployments exempt certain callers from authentication, so `Missing` is a
/// non-fatal advisory.
#[derive(Clone, Copy, Debug, PartialEq, Eq, Structural)]
pub enum CredentialStatus {
    NotApplicable,
    Primary,
    Secondary,
    Missing,
}

/// The run mode for a flag combination: rejected when execute and prove
/// agree and asynchronous proving was not requested; otherwise execution
/// first, then asynchronous, then synchronous proving.
pub open spec fn run_mode_spec(execute: bool, prove: bool, async_prove: bool) -> Option<RunMode> {
    if execute == prove && !async_prove {
        None
    } else if execute {
        Some(RunMode::Execute)
    } else if async_prove {
        Some(RunMode::ProveAsync)
    } else {
        Some(RunMode::ProveSync)
    }
}

/// Validates the mutually exclusive mode flags and picks the run mode.
/// Fails exactly when both or neither of execute and prove are set while
/// asynchronous proving was not requested.
pub fn resolve_run_mode(execute: bool, prove: bool, async_prove: bool) -> (r: Result<
    RunMode,
    UsageError,
>)
    ensures
        match r {
            Ok(m) => run_mode_spec(execute, prove, async_prove) == Some(m),
            Err(e) => run_mode_spec(execute, prove, async_prove) is None && e == (UsageError {  }),
        },
{
    if execute == prove && !async_prove {
        Err(UsageError {  })
    } else if execute {
        Ok(RunMode::Execute)
    } else if async_prove {
        Ok(RunMode::ProveAsync)
    } else {
        Ok(RunMode::ProveSync)
    }
}

/// The backend for a configuration: asynchronous proving forces the remote
/// service; an explicit network mode selects the remote service in that
/// mode; a remote request without a mode falls back to the reserved tier;
/// the environment value `"network"` selects remote, anything else or
/// absence selects local.
pub open spec fn backend_spec(
    async_prove: bool,
    requested_mode: Option<NetworkMode>,
    env_is_network: bool,
) -> BackendKind {
    if async_prove || requested_mode is Some || env_is_network {
        BackendKind::Remote(
            match requested_mode {
                Some(m) => m,
                None => NetworkMode::Reserved,
            },
        )
    } else {
        BackendKind::Local
    }
}

/// Whether an environment-supplied backend request names the remote service.
pub fn is_network_request(env_backend: &Option<String>) -> (r: bool)
    ensures
        r == (env_backend matches Some(s) && s@ == "network"@),
{
    match env_backend {
        Some(s) => *s == String::from_str("network"),
        None => false,
    }
}

/// Binds a run to a backend. Total: missing optional configuration never
/// fails, it falls back (local backend, or the reserved network tier) and
/// the returned flags say which diagnostics to emit.
pub fn select_backend(
    async_prove: bool,
    requested_mode: Option<NetworkMode>,
    env_backend: &Option<String>,
) -> (r: BackendChoice)
    ensures
        r.kind == backend_spec(
            async_prove,
            requested_mode,
            env_backend matches Some(s) && s@ == "network"@,
        ),
        r.from_environment == (!async_prove && requested_mode is None),
        r.forced_remote == (async_prove && requested_mode is None && !(env_backend matches Some(s)
            && s@ == "network"@)),
        r.mode_defaulted == (r.kind is Remote && requested_mode is None),
{
    let env_is_network = is_network_request(env_backend);
    let remote = async_prove || requested_mode.is_some() || env_is_network;
    let kind = if remote {
        BackendKind::Remote(
            match requested_mode {
                Some(m) => m,
                None => NetworkMode::Reserved,
            },
        )
    } else {
        BackendKind::Local
    };
    BackendChoice {
        kind,
        from_environment: !async_prove && requested_mode.is_none(),
        forced_remote: async_prove && requested_mode.is_none() && !env_is_network,
        mode_defaulted: remote && requested_mode.is_none(),
    }
}

/// The credential status for a configuration: not applicable off the remote
/// service; otherwise the first accepted credential wins, and absence of
/// both is the advisory `Missing`, never a failure.
pub open spec fn credential_spec(remote: bool, has_primary: bool, has_secondary: bool)
    -> CredentialStatus {
    if !remote {
        CredentialStatus::NotApplicable
    } else if has_primary {
        CredentialStatus::Primary
    } else if has_secondary {
        CredentialStatus::Secondary
    } else {
        CredentialStatus::Missing
    }
}

/// Reports which of the two accepted credential variables authenticates a
/// remote run. Total on every input: a missing credential yields the
/// advisory `Missing` status and never an error.
pub fn check_credentials(remote: bool, has_primary: bool, has_secondary: bool) -> (r:
    CredentialStatus)
    ensures
        r == credential_spec(remote, has_primary, has_secondary),
        remote && !has_primary && !has_secondary <==> r == CredentialStatus::Missing,
{
    if !remote {
        CredentialStatus::NotApplicable
    } else if has_primary {
        CredentialStatus::Primary
    } else if has_secondary {
        CredentialStatus::Secondary
    } else {
        CredentialStatus::Missing
    }
}

} // verus!
