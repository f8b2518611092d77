//! Credential providers and the ordered credential chain.
//!
//! Providers are tried in list order; the first one that yields a credential
//! wins, partial results are never merged. A chain that runs out of
//! providers fails with `NoCredentialFound` when every provider came back
//! absent, and with `ProviderError` carrying the last hard error otherwise.
//! Every attempt emits one observability event naming the provider and the
//! kind of outcome, never key material.

use vstd::prelude::*;
use vstd::string::*;

verus! {

/// Key material plus identity used to sign outbound requests. Immutable
/// once resolved.
#[derive(Debug, PartialEq, Eq)]
pub struct Credential {
    /// Tenant the key belongs to.
    pub tenancy: String,
    /// User the key belongs to.
    pub user: String,
    /// Path to the private key material.
    pub key_file: String,
    /// Fingerprint of the key; with tenancy and user it forms the key id.
    pub fingerprint: String,
    /// Region hint, if the source provides one.
    pub region: Option<String>,
}

impl Credential {
    /// A credential is well formed when every identifying field and the key
    /// path are non-empty.
    pub open spec fn wf(self) -> bool {
        &&& self.tenancy@.len() > 0
        &&& self.user@.len() > 0
        &&& self.key_file@.len() > 0
        &&& self.fingerprint@.len() > 0
    }

    /// Check the well-formedness condition on a resolved credential.
    pub fn has_required_fields(&self) -> (r: bool)
        ensures
            r == self.wf(),
    {
        !self.tenancy.as_str().is_empty() && !self.user.as_str().is_empty()
            && !self.key_file.as_str().is_empty() && !self.fingerprint.as_str().is_empty()
    }
}

impl Clone for Credential {
    fn clone(&self) -> (r: Self)
        ensures
            r == *self,
    {
        Credential {
            tenancy: self.tenancy.clone(),
            user: self.user.clone(),
            key_file: self.key_file.clone(),
            fingerprint: self.fingerprint.clone(),
            region: match &self.region {
                Some(s) => Some(s.clone()),
                None => None,
            },
        }
    }
}

/// A snapshot of the process environment, taken once by the host and handed
/// to the chain as plain values.
pub struct EnvSnapshot {
    /// Name-value pairs; the first pair with a given name wins.
    pub vars: Vec<(String, String)>,
}

/// The first value bound to `name` in `vars`, searched from position `i`.
pub open spec fn env_lookup_from(vars: Seq<(String, String)>, name: Seq<char>, i: int) -> Option<
    String,
>
    decreases vars.len() - i when 0 <= i <= vars.len()
{
    if i >= vars.len() {
        None
    } else if vars[i].0@ == name {
        Some(vars[i].1)
    } else {
        env_lookup_from(vars, name, i + 1)
    }
}

/// The first value bound to `name` in `vars`.
pub open spec fn env_lookup(vars: Seq<(String, String)>, name: Seq<char>) -> Option<String> {
    env_lookup_from(vars, name, 0)
}

/// Look a name up in the environment snapshot.
pub fn env_get(env: &EnvSnapshot, name: &String) -> (r: Option<String>)
    ensures
        r == env_lookup(env.vars@, name@),
{
    let n = env.vars.len();
    let mut i: usize = 0;
    while i < n
        invariant
            n == env.vars@.len(),
            i <= n,
            env_lookup(env.vars@, name@) == env_lookup_from(env.vars@, name@, i as int),
        decreases n - i,
    {
        if env.vars[i].0.eq(name) {
            return Some(env.vars[i].1.clone());
        }
        i = i + 1;
    }
    None
}

/// What one attempt at one provider came back with.
#[derive(Debug, PartialEq, Eq)]
pub enum ProviderOutcome {
    /// The provider resolved a credential.
    Found(Credential),
    /// The provider had nothing to offer; the chain moves on.
    Absent,
    /// The provider failed outright; the message describes the failure.
    Failed(String),
}

/// Why the chain as a whole failed.
#[derive(Debug, PartialEq, Eq)]
pub enum ChainError {
    /// Every provider in the chain returned absent.
    NoCredentialFound,
    /// At least one provider failed outright and none succeeded; carries
    /// the last hard error.
    ProviderError(String),
}

/// One source a credential can be resolved from.
#[derive(Debug, PartialEq, Eq)]
pub enum ProviderSource {
    /// Reads the identifying variables from the environment snapshot.
    Environment,
    /// A credential read from key-file configuration by the host before the
    /// chain runs; absent when no such configuration exists.
    FileKey(Option<Credential>),
    /// A fixed, operator-injected credential.
    Static(Credential),
}

/// The outcome the environment source yields on a given snapshot: a
/// credential when tenancy, user, key path and fingerprint are all bound,
/// absent otherwise. The region is optional.
pub open spec fn env_outcome_spec(vars: Seq<(String, String)>) -> ProviderOutcome {
    let tenancy = env_lookup(vars, "OCI_TENANCY"@);
    let user = env_lookup(vars, "OCI_USER"@);
    let key_file = env_lookup(vars, "OCI_KEY_FILE"@);
    let fingerprint = env_lookup(vars, "OCI_FINGERPRINT"@);
    if tenancy is Some && user is Some && key_file is Some && fingerprint is Some {
        ProviderOutcome::Found(
            Credential {
                tenancy: tenancy->Some_0,
                user: user->Some_0,
                key_file: key_file->Some_0,
                fingerprint: fingerprint->Some_0,
                region: env_lookup(vars, "OCI_REGION"@),
            },
        )
    } else {
        ProviderOutcome::Absent
    }
}

/// The outcome a source yields on a given environment snapshot.
pub open spec fn source_outcome_spec(source: ProviderSource, vars: Seq<(String, String)>)
    -> ProviderOutcome {
    match source {
        ProviderSource::Environment => env_outcome_spec(vars),
        ProviderSource::FileKey(c) => match c {
            Some(cred) => ProviderOutcome::Found(cred),
            None => ProviderOutcome::Absent,
        },
        ProviderSource::Static(cred) => ProviderOutcome::Found(cred),
    }
}

/// Resolve a credential from the environment snapshot.
pub fn env_provide(env: &EnvSnapshot) -> (r: ProviderOutcome)
    ensures
        r == env_outcome_spec(env.vars@),
{
    let tenancy = env_get(env, &String::from_str("OCI_TENANCY"));
    let user = env_get(env, &String::from_str("OCI_USER"));
    let key_file = env_get(env, &String::from_str("OCI_KEY_FILE"));
    let fingerprint = env_get(env, &String::from_str("OCI_FINGERPRINT"));
    match (tenancy, user, key_file, fingerprint) {
        (Some(tenancy), Some(user), Some(key_file), Some(fingerprint)) => ProviderOutcome::Found(
            Credential {
                tenancy,
                user,
                key_file,
                fingerprint,
                region: env_get(env, &String::from_str("OCI_REGION")),
            },
        ),
        _ => ProviderOutcome::Absent,
    }
}

/// Resolve a credential from one source.
pub fn source_provide(source: &ProviderSource, env: &EnvSnapshot) -> (r: ProviderOutcome)
    ensures
        r == source_outcome_spec(*source, env.vars@),
{
    match source {
        ProviderSource::Environment => env_provide(env),
        ProviderSource::FileKey(c) => match c {
            Some(cred) => ProviderOutcome::Found(cred.clone()),
            None => ProviderOutcome::Absent,
        },
        ProviderSource::Static(cred) => ProviderOutcome::Found(cred.clone()),
    }
}

/// The kind of an outcome, as carried by observability events: never the
/// credential or the key material itself.
#[derive(Debug, PartialEq, Eq, Structural, Clone, Copy)]
pub enum AttemptKind {
    /// The provider resolved a credential.
    Found,
    /// The provider had nothing to offer.
    Absent,
    /// The provider failed outright.
    Failed,
}

/// The kind of an outcome.
pub open spec fn kind_of(o: ProviderOutcome) -> AttemptKind {
    match o {
        ProviderOutcome::Found(_) => AttemptKind::Found,
        ProviderOutcome::Absent => AttemptKind::Absent,
        ProviderOutcome::Failed(_) => AttemptKind::Failed,
    }
}

/// One observability event: which provider was attempted and how the
/// attempt ended.
#[derive(Debug, PartialEq, Eq)]
pub struct AttemptEvent {
    /// Name of the provider that was attempted.
    pub provider: String,
    /// How the attempt ended.
    pub outcome: AttemptKind,
}

/// A provider wrapped with a name for observability. Wrapping changes no
/// behaviour: the outcome is the inner provider's outcome.
#[derive(Debug)]
pub struct LoggingProvider<P> {
    /// Name emitted with every attempt.
    pub name: String,
    /// The provider the attempts go to.
    pub inner: P,
}

impl<P> LoggingProvider<P> {
    /// Wrap a provider under a name.
    pub fn new(name: String, provider: P) -> (r: Self)
        ensures
            r.name == name,
            r.inner == provider,
    {
        LoggingProvider { name, inner: provider }
    }
}

impl LoggingProvider<ProviderSource> {
    /// Resolve through the wrapped provider, emitting one event for the
    /// attempt. The outcome is exactly the inner provider's outcome.
    pub fn provide_credential(&self, env: &EnvSnapshot) -> (r: (ProviderOutcome, AttemptEvent))
        ensures
            r.0 == source_outcome_spec(self.inner, env.vars@),
            r.1.provider == self.name,
            r.1.outcome == kind_of(source_outcome_spec(self.inner, env.vars@)),
    {
        let outcome = source_provide(&self.inner, env);
        let kind = match &outcome {
            ProviderOutcome::Found(_) => AttemptKind::Found,
            ProviderOutcome::Absent => AttemptKind::Absent,
            ProviderOutcome::Failed(_) => AttemptKind::Failed,
        };
        let event = AttemptEvent { provider: self.name.clone(), outcome: kind };
        (outcome, event)
    }
}

/// What an ordered sequence of outcomes resolves to, read from position `i`:
/// the first credential wins; with no credential, the last hard error; with
/// neither, the chain reports that no credential was found.
pub open spec fn resolve_from(outs: Seq<ProviderOutcome>, i: int) -> Result<
    Credential,
    ChainError,
>
    decreases outs.len() - i when 0 <= i <= outs.len()
{
    if i >= outs.len() {
        Err(ChainError::NoCredentialFound)
    } else {
        match outs[i] {
            ProviderOutcome::Found(c) => Ok(c),
            ProviderOutcome::Absent => resolve_from(outs, i + 1),
            ProviderOutcome::Failed(e) => match resolve_from(outs, i + 1) {
                Ok(c) => Ok(c),
                Err(ChainError::ProviderError(later)) => Err(ChainError::ProviderError(later)),
                Err(ChainError::NoCredentialFound) => Err(ChainError::ProviderError(e)),
            },
        }
    }
}

/// What an ordered sequence of outcomes resolves to.
pub open spec fn resolve_outcomes_spec(outs: Seq<ProviderOutcome>) -> Result<
    Credential,
    ChainError,
> {
    resolve_from(outs, 0)
}

/// Fold an earlier hard error into the resolution of the rest of the chain:
/// a later success or later error wins; otherwise the earlier error stands.
pub open spec fn with_earlier_error(last_err: Option<String>, rest: Result<
    Credential,
    ChainError,
>) -> Result<Credential, ChainError> {
    match last_err {
        None => rest,
        Some(e) => match rest {
            Ok(c) => Ok(c),
            Err(ChainError::ProviderError(later)) => Err(ChainError::ProviderError(later)),
            Err(ChainError::NoCredentialFound) => Err(ChainError::ProviderError(e)),
        },
    }
}

/// The outcomes an ordered list of named providers yields on a snapshot.
pub open spec fn chain_outcomes_spec(
    providers: Seq<LoggingProvider<ProviderSource>>,
    vars: Seq<(String, String)>,
) -> Seq<ProviderOutcome> {
    Seq::new(providers.len(), |j: int| source_outcome_spec(providers[j].inner, vars))
}

/// How many providers a resolution attempts, read from position `i`: all of
/// them up to and including the first that resolves a credential.
pub open spec fn attempts_from(outs: Seq<ProviderOutcome>, i: int) -> int
    decreases outs.len() - i when 0 <= i <= outs.len()
{
    if i >= outs.len() {
        i
    } else if outs[i] is Found {
        i + 1
    } else {
        attempts_from(outs, i + 1)
    }
}

/// How many providers a resolution attempts.
pub open spec fn attempts_spec(outs: Seq<ProviderOutcome>) -> int {
    attempts_from(outs, 0)
}

/// Resolve a credential through an ordered list of named providers.
///
/// Providers are tried in list order and the first credential wins. One
/// event is emitted per attempt, naming the provider and the kind of its
/// outcome.
pub fn resolve(providers: &Vec<LoggingProvider<ProviderSource>>, env: &EnvSnapshot) -> (r: (
    Result<Credential, ChainError>,
    Vec<AttemptEvent>,
))
    ensures
        r.0 == resolve_outcomes_spec(chain_outcomes_spec(providers@, env.vars@)),
        r.1@.len() == attempts_spec(chain_outcomes_spec(providers@, env.vars@)),
        forall|j: int|
            0 <= j < r.1@.len() ==> r.1@[j].provider == providers@[j].name && r.1@[j].outcome
                == kind_of(chain_outcomes_spec(providers@, env.vars@)[j]),
{
    let ghost outs = chain_outcomes_spec(providers@, env.vars@);
    let n = providers.len();
    let mut events: Vec<AttemptEvent> = Vec::new();
    let mut last_err: Option<String> = None;
    let mut i: usize = 0;
    while i < n
        invariant
            n == providers@.len(),
            i <= n,
            outs == chain_outcomes_spec(providers@, env.vars@),
            outs.len() == n,
            with_earlier_error(last_err, resolve_from(outs, i as int)) == resolve_outcomes_spec(
                outs,
            ),
            events@.len() == i,
            forall|j: int|
                0 <= j < i ==> events@[j].provider == providers@[j].name && events@[j].outcome
                    == kind_of(outs[j]),
            forall|j: int| 0 <= j < i ==> !(outs[j] is Found),
            attempts_spec(outs) == attempts_from(outs, i as int),
        decreases n - i,
    {
        let (outcome, event) = providers[i].provide_credential(env);
        events.push(event);
        match outcome {
            ProviderOutcome::Found(c) => {
                return (Ok(c), events);
            },
            ProviderOutcome::Absent => {},
            ProviderOutcome::Failed(e) => {
                last_err = Some(e);
            },
        }
        i = i + 1;
    }
    match last_err {
        Some(e) => (Err(ChainError::ProviderError(e)), events),
        None => (Err(ChainError::NoCredentialFound), events),
    }
}

/// Resolve a credential from an ordered sequence of provider outcomes
/// gathered by the host, under the same first-match-wins discipline.
pub fn resolve_outcomes(outcomes: &Vec<ProviderOutcome>) -> (r: Result<Credential, ChainError>)
    ensures
        r == resolve_outcomes_spec(outcomes@),
{
    let n = outcomes.len();
    let mut last_err: Option<String> = None;
    let mut i: usize = 0;
    while i < n
        invariant
            n == outcomes@.len(),
            i <= n,
            with_earlier_error(last_err, resolve_from(outcomes@, i as int))
                == resolve_outcomes_spec(outcomes@),
        decreases n - i,
    {
        match &outcomes[i] {
            ProviderOutcome::Found(c) => {
                return Ok(c.clone());
            },
            ProviderOutcome::Absent => {},
            ProviderOutcome::Failed(e) => {
                last_err = Some(e.clone());
            },
        }
        i = i + 1;
    }
    match last_err {
        Some(e) => Err(ChainError::ProviderError(e)),
        None => Err(ChainError::NoCredentialFound),
    }
}

/// The process-wide credential-resolution singleton: an ordered chain of
/// named providers, constructed once at startup, read-only afterwards.
pub struct SignerService {
    /// The providers, in the order they are tried.
    pub chain: Vec<LoggingProvider<ProviderSource>>,
}

impl SignerService {
    /// Construct the default service: the environment provider, wrapped
    /// for observability, as the only chain member.
    pub fn new() -> (s: Self)
        ensures
            s.chain@.len() == 1,
            s.chain@[0].inner == ProviderSource::Environment,
            s.chain@[0].name@ == "Environment"@,
    {
        let mut chain: Vec<LoggingProvider<ProviderSource>> = Vec::new();
        chain.push(
            LoggingProvider::new(String::from_str("Environment"), ProviderSource::Environment),
        );
        SignerService { chain }
    }

    /// Resolve a credential through the chain on the given environment
    /// snapshot. Fails exactly as the chain does: `NoCredentialFound` when
    /// every provider came back absent.
    pub fn get_credential(&self, env: &EnvSnapshot) -> (r: Result<Credential, ChainError>)
        ensures
            r == resolve_outcomes_spec(chain_outcomes_spec(self.chain@, env.vars@)),
    {
        let (outcome, _events) = resolve(&self.chain, env);
        outcome
    }
}

/// When one provider resolves a credential and no earlier provider does,
/// the chain returns exactly that provider's credential: ordering is
/// significant and the first match wins, whatever follows it.
pub proof fn lemma_chain_first_found(outs: Seq<ProviderOutcome>, i: int)
    requires
        0 <= i < outs.len(),
        outs[i] is Found,
        forall|j: int| 0 <= j < i ==> !(outs[j] is Found),
    ensures
        resolve_outcomes_spec(outs) == Ok::<Credential, ChainError>(outs[i]->Found_0),
{
    lemma_resolve_first_found_from(outs, 0, i);
}

proof fn lemma_resolve_first_found_from(outs: Seq<ProviderOutcome>, k: int, i: int)
    requires
        0 <= k <= i < outs.len(),
        outs[i] is Found,
        forall|j: int| k <= j < i ==> !(outs[j] is Found),
    ensures
        resolve_from(outs, k) == Ok::<Credential, ChainError>(outs[i]->Found_0),
    decreases i - k,
{
    if k < i {
        lemma_resolve_first_found_from(outs, k + 1, i);
    }
}

/// The chain reports `NoCredentialFound` exactly when every provider in it
/// returned absent.
pub proof fn lemma_chain_no_credential(outs: Seq<ProviderOutcome>)
    ensures
        (resolve_outcomes_spec(outs) == Err::<Credential, ChainError>(
            ChainError::NoCredentialFound,
        )) <==> (forall|j: int| 0 <= j < outs.len() ==> outs[j] is Absent),
{
    lemma_resolve_no_credential_from(outs, 0);
}

proof fn lemma_resolve_no_credential_from(outs: Seq<ProviderOutcome>, k: int)
    requires
        0 <= k <= outs.len(),
    ensures
        (resolve_from(outs, k) == Err::<Credential, ChainError>(ChainError::NoCredentialFound))
            <==> (forall|j: int| k <= j < outs.len() ==> outs[j] is Absent),
    decreases outs.len() - k,
{
    if k < outs.len() {
        lemma_resolve_no_credential_from(outs, k + 1);
    }
}

} // verus!
