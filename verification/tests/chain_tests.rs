use pdf_gateway::chain::AttemptKind;
use pdf_gateway::chain::ChainError;
use pdf_gateway::chain::Credential;
use pdf_gateway::chain::EnvSnapshot;
use pdf_gateway::chain::LoggingProvider;
use pdf_gateway::chain::ProviderOutcome;
use pdf_gateway::chain::ProviderSource;
use pdf_gateway::chain::SignerService;
use pdf_gateway::chain::env_provide;
use pdf_gateway::chain::resolve;
use pdf_gateway::chain::resolve_outcomes;

fn cred(user: &str) -> Credential {
    Credential {
        tenancy: "tenancy-a".to_string(),
        user: user.to_string(),
        key_file: "/keys/key.pem".to_string(),
        fingerprint: "aa:bb".to_string(),
        region: None,
    }
}

fn full_env() -> EnvSnapshot {
    EnvSnapshot {
        vars: vec![
            ("OCI_TENANCY".to_string(), "tenancy-a".to_string()),
            ("OCI_USER".to_string(), "user-a".to_string()),
            ("OCI_KEY_FILE".to_string(), "/keys/key.pem".to_string()),
            ("OCI_FINGERPRINT".to_string(), "aa:bb".to_string()),
        ],
    }
}

#[test]
fn env_provider_resolves_when_all_variables_present() {
    match env_provide(&full_env()) {
        ProviderOutcome::Found(c) => {
            assert_eq!(c.tenancy, "tenancy-a");
            assert_eq!(c.user, "user-a");
            assert_eq!(c.key_file, "/keys/key.pem");
            assert_eq!(c.fingerprint, "aa:bb");
            assert_eq!(c.region, None);
        }
        other => panic!("expected a credential, got {:?}", other),
    }
}

#[test]
fn env_provider_reads_optional_region() {
    let mut env = full_env();
    env.vars.push(("OCI_REGION".to_string(), "eu-amsterdam-1".to_string()));
    match env_provide(&env) {
        ProviderOutcome::Found(c) => assert_eq!(c.region, Some("eu-amsterdam-1".to_string())),
        other => panic!("expected a credential, got {:?}", other),
    }
}

#[test]
fn env_provider_absent_on_partial_variables() {
    let env = EnvSnapshot {
        vars: vec![
            ("OCI_TENANCY".to_string(), "tenancy-a".to_string()),
            ("OCI_USER".to_string(), "user-a".to_string()),
        ],
    };
    assert_eq!(env_provide(&env), ProviderOutcome::Absent);
}

#[test]
fn env_provider_first_binding_wins() {
    let mut env = full_env();
    env.vars.push(("OCI_USER".to_string(), "user-shadowed".to_string()));
    match env_provide(&env) {
        ProviderOutcome::Found(c) => assert_eq!(c.user, "user-a"),
        other => panic!("expected a credential, got {:?}", other),
    }
}

#[test]
fn chain_returns_first_of_several_successes() {
    let outcomes = vec![
        ProviderOutcome::Absent,
        ProviderOutcome::Found(cred("first-winner")),
        ProviderOutcome::Found(cred("second")),
    ];
    match resolve_outcomes(&outcomes) {
        Ok(c) => assert_eq!(c.user, "first-winner"),
        Err(e) => panic!("expected a credential, got {:?}", e),
    }
}

#[test]
fn chain_order_is_significant() {
    let a = ProviderSource::Static(cred("provider-a"));
    let b = ProviderSource::Static(cred("provider-b"));
    let env = EnvSnapshot { vars: vec![] };

    let ab = vec![
        LoggingProvider::new("A".to_string(), a),
        LoggingProvider::new("B".to_string(), b),
    ];
    let (outcome, _) = resolve(&ab, &env);
    assert_eq!(outcome.unwrap().user, "provider-a");

    let a = ProviderSource::Static(cred("provider-a"));
    let b = ProviderSource::Static(cred("provider-b"));
    let ba = vec![
        LoggingProvider::new("B".to_string(), b),
        LoggingProvider::new("A".to_string(), a),
    ];
    let (outcome, _) = resolve(&ba, &env);
    assert_eq!(outcome.unwrap().user, "provider-b");
}

#[test]
fn chain_fails_no_credential_only_when_all_absent() {
    let outcomes = vec![ProviderOutcome::Absent, ProviderOutcome::Absent];
    assert_eq!(resolve_outcomes(&outcomes), Err(ChainError::NoCredentialFound));

    let outcomes = vec![
        ProviderOutcome::Absent,
        ProviderOutcome::Failed("disk on fire".to_string()),
    ];
    assert_eq!(
        resolve_outcomes(&outcomes),
        Err(ChainError::ProviderError("disk on fire".to_string()))
    );
}

#[test]
fn chain_carries_last_hard_error() {
    let outcomes = vec![
        ProviderOutcome::Failed("first error".to_string()),
        ProviderOutcome::Absent,
        ProviderOutcome::Failed("last error".to_string()),
    ];
    assert_eq!(
        resolve_outcomes(&outcomes),
        Err(ChainError::ProviderError("last error".to_string()))
    );
}

#[test]
fn chain_success_after_hard_error_wins() {
    let outcomes = vec![
        ProviderOutcome::Failed("transient".to_string()),
        ProviderOutcome::Found(cred("late-winner")),
    ];
    assert_eq!(resolve_outcomes(&outcomes).unwrap().user, "late-winner");
}

#[test]
fn chain_emits_one_event_per_attempt_without_key_material() {
    let env = EnvSnapshot { vars: vec![] };
    let providers = vec![
        LoggingProvider::new("Environment".to_string(), ProviderSource::Environment),
        LoggingProvider::new("Static".to_string(), ProviderSource::Static(cred("ops"))),
        LoggingProvider::new("Never".to_string(), ProviderSource::FileKey(None)),
    ];
    let (outcome, events) = resolve(&providers, &env);
    assert_eq!(outcome.unwrap().user, "ops");
    // The chain stops at the first success: two attempts, two events.
    assert_eq!(events.len(), 2);
    assert_eq!(events[0].provider, "Environment");
    assert_eq!(events[0].outcome, AttemptKind::Absent);
    assert_eq!(events[1].provider, "Static");
    assert_eq!(events[1].outcome, AttemptKind::Found);
}

#[test]
fn logging_decorator_preserves_behavior() {
    let inner = ProviderSource::Static(cred("wrapped"));
    let wrapped = LoggingProvider::new("Static".to_string(), inner);
    let env = EnvSnapshot { vars: vec![] };
    let (outcome, event) = wrapped.provide_credential(&env);
    match outcome {
        ProviderOutcome::Found(c) => assert_eq!(c.user, "wrapped"),
        other => panic!("expected a credential, got {:?}", other),
    }
    assert_eq!(event.provider, "Static");
    assert_eq!(event.outcome, AttemptKind::Found);
}

#[test]
fn signer_service_resolves_from_environment() {
    let service = SignerService::new();
    let c = service.get_credential(&full_env()).unwrap();
    assert_eq!(c.tenancy, "tenancy-a");

    let empty = EnvSnapshot { vars: vec![] };
    assert_eq!(
        service.get_credential(&empty),
        Err(ChainError::NoCredentialFound)
    );
}

#[test]
fn credential_well_formedness() {
    assert!(cred("u").has_required_fields());
    let mut bad = cred("u");
    bad.fingerprint = String::new();
    assert!(!bad.has_required_fields());
}
