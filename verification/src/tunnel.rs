//! Tunnels: what one is built from, in which order, and how one is closed.

use vstd::prelude::*;

use crate::bridge::{stdio_steps, BridgeStep};
use crate::config::Config;

verus! {

/// An endpoint's secret key, carried unread.
#[verifier::external_type_specification]
#[verifier::external_body]
pub struct ExSecretKey(iroh_base::SecretKey);

/// What a roost delivers to.
#[derive(Clone, Copy, Debug, PartialEq, Eq, Structural)]
pub struct RoostConfig {
    /// The port of the local SSH server.
    pub ssh_port: u16,
}

impl Default for RoostConfig {
    fn default() -> (r: RoostConfig)
        ensures
            r.ssh_port == 22,
    {
        RoostConfig { ssh_port: 22 }
    }
}

/// What came of looking for a telemetry secret in one place.
#[derive(Debug, PartialEq, Eq)]
pub enum SecretLookup<S> {
    /// There is none.
    Absent,
    /// What is there is no secret.
    Invalid,
    /// This secret is there.
    Found(S),
}

/// The telemetry secret in use: none unless telemetry is enabled; else that of
/// the environment if it has a valid one, else that of the build if it has one.
pub open spec fn secret_in_use<S>(
    config: Config,
    environment: SecretLookup<S>,
    embedded: SecretLookup<S>,
) -> Option<S> {
    if !config.enabled() {
        None
    } else {
        match (environment, embedded) {
            (SecretLookup::Found(secret), _) => Some(secret),
            (_, SecretLookup::Found(secret)) => Some(secret),
            _ => None,
        }
    }
}

/// Whether the environment has to be searched for a telemetry secret.
pub fn look_in_environment(config: &Config) -> (r: bool)
    ensures
        r == config.enabled(),
{
    config.telemetry_enabled()
}

/// Whether what was embedded in this build has to be searched for a telemetry
/// secret, after the environment was or did not have to be.
pub fn look_in_build<S>(config: &Config, environment: &SecretLookup<S>) -> (r: bool)
    ensures
        r == (config.enabled() && !(environment is Found)),
{
    match environment {
        SecretLookup::Found(_) => false,
        _ => config.telemetry_enabled(),
    }
}

/// The telemetry secret in use, from what came of both lookups. One that does
/// not have to be made may stand as absent.
pub fn iroh_services_api_secret<S>(
    config: &Config,
    environment: SecretLookup<S>,
    embedded: SecretLookup<S>,
) -> (r: Option<S>)
    ensures
        r == secret_in_use(*config, environment, embedded),
{
    if !config.telemetry_enabled() {
        return None;
    }
    match environment {
        SecretLookup::Found(secret) => Some(secret),
        _ => match embedded {
            SecretLookup::Found(secret) => Some(secret),
            _ => None,
        },
    }
}

/// What a tunnel is built from.
#[derive(Debug)]
pub struct TunnelBuilder<S> {
    /// The roost to run, which exposes a local SSH server, if any.
    pub roost: Option<RoostConfig>,
    /// The key that secures the tunnel. Its public half is the identifier of
    /// the tunnel's endpoint.
    pub secret_key: iroh_base::SecretKey,
    /// The relay servers to use; if there are none, the public ones.
    pub relay_urls: Vec<String>,
    /// The secret under which telemetry is sent, if it is.
    pub isvc_api_secret: Option<S>,
    /// The config of the run.
    pub config: Config,
}

/// The relay servers that an endpoint uses.
#[derive(Debug, PartialEq, Eq)]
pub enum RelayChoice {
    /// The public ones.
    Public,
    /// These.
    Custom(Vec<String>),
}

/// One step of building a tunnel. The steps are taken as a plan: see
/// [`crate::plan::next_step`].
#[derive(Debug)]
pub enum BuildStep<S> {
    /// Bind an endpoint.
    Bind { secret_key: iroh_base::SecretKey, relays: RelayChoice },
    /// Connect the telemetry client of the endpoint.
    ConnectServices(S),
    /// Make sure that an SSH server listens on this port.
    EnsureSshServer(u16),
    /// Accept pigeons and deliver them to this port.
    AcceptPigeons(u16),
    /// Start answering on the endpoint.
    SpawnRouter,
}

/// The relay servers for a list of them.
pub open spec fn relay_choice(urls: Vec<String>) -> RelayChoice {
    if urls@.len() == 0 {
        RelayChoice::Public
    } else {
        RelayChoice::Custom(urls)
    }
}

impl<S> TunnelBuilder<S> {
    /// The builder of a tunnel without a roost, over the public relays, with
    /// the telemetry secret in use.
    pub fn new(
        secret_key: iroh_base::SecretKey,
        config: Config,
        environment: SecretLookup<S>,
        embedded: SecretLookup<S>,
    ) -> (r: TunnelBuilder<S>)
        ensures
            r.roost is None,
            r.secret_key == secret_key,
            r.relay_urls@.len() == 0,
            r.isvc_api_secret == secret_in_use(config, environment, embedded),
            r.config == config,
    {
        let isvc_api_secret = iroh_services_api_secret(&config, environment, embedded);
        TunnelBuilder { roost: None, secret_key, relay_urls: Vec::new(), isvc_api_secret, config }
    }

    /// This builder with another telemetry secret.
    pub fn api_secret(self, secret: Option<S>) -> (r: TunnelBuilder<S>)
        ensures
            r == (TunnelBuilder { isvc_api_secret: secret, ..self }),
    {
        TunnelBuilder { isvc_api_secret: secret, ..self }
    }

    /// The steps of [`TunnelBuilder::build`].
    pub open spec fn steps(self) -> Seq<BuildStep<S>> {
        let bind = seq![
            BuildStep::Bind {
                secret_key: self.secret_key,
                relays: relay_choice(self.relay_urls),
            },
        ];
        let services = match self.isvc_api_secret {
            Some(secret) => seq![BuildStep::ConnectServices(secret)],
            None => seq![],
        };
        let roost = match self.roost {
            Some(home) => seq![
                BuildStep::EnsureSshServer(home.ssh_port),
                BuildStep::AcceptPigeons(home.ssh_port),
            ],
            None => seq![],
        };
        bind + services + roost + seq![BuildStep::SpawnRouter]
    }

    /// The steps of building this tunnel, in order.
    pub fn build(self) -> (r: Vec<BuildStep<S>>)
        ensures
            r@ == self.steps(),
    {
        let mut steps: Vec<BuildStep<S>> = Vec::new();
        let relays = if self.relay_urls.is_empty() {
            RelayChoice::Public
        } else {
            RelayChoice::Custom(self.relay_urls)
        };
        steps.push(BuildStep::Bind { secret_key: self.secret_key, relays });
        match self.isvc_api_secret {
            Some(secret) => {
                steps.push(BuildStep::ConnectServices(secret));
            },
            None => {},
        }
        match self.roost {
            Some(home) => {
                steps.push(BuildStep::EnsureSshServer(home.ssh_port));
                steps.push(BuildStep::AcceptPigeons(home.ssh_port));
            },
            None => {},
        }
        steps.push(BuildStep::SpawnRouter);
        assert(steps@ == self.steps());
        steps
    }
}

/// Calls `iroh_base::SecretKey::generate`. Nothing is claimed of the key: it is
/// drawn at random.
#[verifier::external_body]
fn generate_secret_key() -> iroh_base::SecretKey {
    iroh_base::SecretKey::generate()
}

/// Whether `key` is one that was drawn. Two draws may differ, and nothing else is
/// known of what one gives.
pub closed spec fn drawn(key: iroh_base::SecretKey) -> bool {
    call_ensures(generate_secret_key, (), key)
}

/// The config of a run, from what came of loading it.
pub open spec fn run_config<E>(loaded: Result<Config, E>) -> Config {
    match loaded {
        Ok(config) => config,
        Err(_) => Config { telemetry_enabled: None },
    }
}

/// A tunnel that was built.
#[derive(Clone, Debug)]
pub struct Tunnel<R, C> {
    /// What answers on the endpoint of the tunnel.
    pub router: R,
    /// The telemetry client, held for as long as the tunnel.
    pub isvc_client: Option<C>,
}

/// How a task ended that a tunnel was kept open for.
#[derive(Debug, PartialEq, Eq)]
pub enum TaskEnd<P, E> {
    /// It ran to its end.
    Completed(Result<(), E>),
    /// It panicked.
    Panicked(P),
    /// It was stopped before its end.
    Cancelled(E),
}

/// What is left to do once the tunnel is closed.
#[derive(Debug, PartialEq, Eq)]
pub enum AfterClose<P, E> {
    /// Return this.
    Return(Result<(), E>),
    /// Go on panicking.
    ResumePanic(P),
}

impl<R, C> Tunnel<R, C> {
    /// The builder of a tunnel under a throwaway identity, from what came of
    /// loading the config and of looking for a telemetry secret.
    pub fn builder_ephemeral<S, E>(
        loaded: Result<Config, E>,
        environment: SecretLookup<S>,
        embedded: SecretLookup<S>,
    ) -> (r: TunnelBuilder<S>)
        ensures
            drawn(r.secret_key),
            r.roost is None,
            r.relay_urls@.len() == 0,
            r.isvc_api_secret == secret_in_use(run_config(loaded), environment, embedded),
            r.config == run_config(loaded),
    {
        let config = Config::load_or_default(loaded);
        let secret_key = generate_secret_key();
        assert(drawn(secret_key));
        TunnelBuilder::new(secret_key, config, environment, embedded)
    }

    /// The builder of a tunnel under the identity in an SSH directory, from what
    /// came of reading its key there. Without a key there is no builder.
    pub fn builder_from_ssh_dir<S, K, E>(
        secret_key: Result<iroh_base::SecretKey, K>,
        loaded: Result<Config, E>,
        environment: SecretLookup<S>,
        embedded: SecretLookup<S>,
    ) -> (r: Result<TunnelBuilder<S>, K>)
        ensures
            match secret_key {
                Ok(key) => r is Ok && r->Ok_0.secret_key == key && r->Ok_0.roost is None
                    && r->Ok_0.relay_urls@.len() == 0 && r->Ok_0.isvc_api_secret == secret_in_use(
                    run_config(loaded),
                    environment,
                    embedded,
                ) && r->Ok_0.config == run_config(loaded),
                Err(e) => r == Err::<TunnelBuilder<S>, K>(e),
            },
    {
        match secret_key {
            Ok(key) => {
                let config = Config::load_or_default(loaded);
                Ok(TunnelBuilder::new(key, config, environment, embedded))
            },
            Err(e) => Err(e),
        }
    }

    /// The local address that a tunnel listens on for connections to fly: any
    /// free port of this machine.
    pub fn fly() -> (r: &'static str)
        ensures
            r@ == "127.0.0.1:0"@,
    {
        "127.0.0.1:0"
    }

    /// How a tunnel bridges standard input and output to a remote roost.
    pub fn fly_stdio() -> (r: Vec<BridgeStep>)
        ensures
            r@ == stdio_steps(),
    {
        let steps = vec![
            BridgeStep::Connect,
            BridgeStep::OpenStream,
            BridgeStep::WritePreface,
            BridgeStep::FlushPreface,
            BridgeStep::CopyStdio,
        ];
        assert(steps@ == stdio_steps());
        steps
    }

    /// What is left to do once a task has ended and the tunnel was closed after
    /// it. The tunnel is closed however the task ended; an error of closing it is
    /// only reported.
    pub fn close_after<P, E>(task: TaskEnd<P, E>, closed: Result<(), E>) -> (r: (
        Option<E>,
        AfterClose<P, E>,
    ))
        ensures
            r.0 == (match closed {
                Ok(_) => None,
                Err(e) => Some(e),
            }),
            r.1 == (match task {
                TaskEnd::Completed(result) => AfterClose::Return(result),
                TaskEnd::Panicked(panic) => AfterClose::ResumePanic(panic),
                TaskEnd::Cancelled(e) => AfterClose::Return(Err(e)),
            }),
    {
        let report = match closed {
            Ok(_) => None,
            Err(e) => Some(e),
        };
        let rest = match task {
            TaskEnd::Completed(result) => AfterClose::Return(result),
            TaskEnd::Panicked(panic) => AfterClose::ResumePanic(panic),
            TaskEnd::Cancelled(e) => AfterClose::Return(Err(e)),
        };
        (report, rest)
    }
}

/// Without telemetry no secret is in use, whatever there is.
pub proof fn law_no_secret_without_telemetry<S>(
    config: Config,
    environment: SecretLookup<S>,
    embedded: SecretLookup<S>,
)
    requires
        !config.enabled(),
    ensures
        secret_in_use(config, environment, embedded) is None,
{
}

/// A valid secret of the environment is used before that of the build.
pub proof fn law_environment_secret_wins<S>(config: Config, secret: S, embedded: SecretLookup<S>)
    requires
        config.enabled(),
    ensures
        secret_in_use(config, SecretLookup::Found(secret), embedded) == Some(secret),
{
}

/// What stands in the environment and is no secret counts as if nothing stood
/// there, and so it is with the build.
pub proof fn law_invalid_secrets_count_as_absent<S>(
    config: Config,
    environment: SecretLookup<S>,
    embedded: SecretLookup<S>,
)
    ensures
        secret_in_use(config, SecretLookup::Invalid, embedded) == secret_in_use(
            config,
            SecretLookup::Absent,
            embedded,
        ),
        secret_in_use(config, environment, SecretLookup::Invalid) == secret_in_use(
            config,
            environment,
            SecretLookup::Absent,
        ),
{
}

/// A place that does not have to be searched has no say in which secret is in
/// use.
pub proof fn law_unsearched_places_do_not_matter<S>(
    config: Config,
    environment: SecretLookup<S>,
    embedded: SecretLookup<S>,
)
    ensures
        !config.enabled() ==> secret_in_use(config, environment, embedded) == secret_in_use(
            config,
            SecretLookup::Absent,
            embedded,
        ),
        !(config.enabled() && !(environment is Found)) ==> secret_in_use(
            config,
            environment,
            embedded,
        ) == secret_in_use(config, environment, SecretLookup::Absent),
{
}

/// Pigeons are accepted only by a tunnel with a roost, on its port, and only
/// after an SSH server was found there.
pub proof fn law_accept_only_after_ssh_check<S>(builder: TunnelBuilder<S>, i: int)
    requires
        0 <= i < builder.steps().len(),
        builder.steps()[i] is AcceptPigeons,
    ensures
        builder.roost is Some,
        builder.steps()[i] == BuildStep::<S>::AcceptPigeons(builder.roost->0.ssh_port),
        i > 0,
        builder.steps()[i - 1] == BuildStep::<S>::EnsureSshServer(builder.roost->0.ssh_port),
{
}

/// An endpoint is bound before anything else is done, and its router is spawned
/// after everything else; each happens once.
pub proof fn law_bind_first_spawn_last<S>(builder: TunnelBuilder<S>, i: int)
    requires
        0 <= i < builder.steps().len(),
    ensures
        builder.steps()[i] is Bind <==> i == 0,
        builder.steps()[i] is SpawnRouter <==> i == builder.steps().len() - 1,
{
}

/// A telemetry client is connected exactly if there is a secret for it.
pub proof fn law_services_need_a_secret<S>(builder: TunnelBuilder<S>)
    ensures
        (exists|i: int|
            0 <= i < builder.steps().len() && #[trigger] builder.steps()[i] is ConnectServices)
            <==> builder.isvc_api_secret is Some,
{
    if builder.isvc_api_secret is Some {
        assert(builder.steps()[1] is ConnectServices);
    }
}

/// What is done to build a tunnel, whatever it is built from: its own key is bound,
/// over the relays that were given or the public ones if none were; a telemetry
/// client is connected exactly with the secret that there is; and pigeons are
/// accepted, and an SSH server looked for, exactly if there is a roost and on its
/// port.
pub proof fn law_tunnels_are_built_from_their_parts<S>(builder: TunnelBuilder<S>, step: BuildStep<S>)
    ensures
        builder.steps().contains(step) <==> match step {
            BuildStep::Bind { secret_key, relays } => secret_key == builder.secret_key
                && match relays {
                RelayChoice::Public => builder.relay_urls@.len() == 0,
                RelayChoice::Custom(urls) => builder.relay_urls@.len() > 0 && urls
                    == builder.relay_urls,
            },
            BuildStep::ConnectServices(secret) => builder.isvc_api_secret == Some(secret),
            BuildStep::EnsureSshServer(port) => builder.roost is Some
                && builder.roost->0.ssh_port == port,
            BuildStep::AcceptPigeons(port) => builder.roost is Some && builder.roost->0.ssh_port
                == port,
            BuildStep::SpawnRouter => true,
        },
{
    let s = builder.steps();
    let c: int = if builder.isvc_api_secret is Some {
        1
    } else {
        0
    };
    let a: int = if builder.roost is Some {
        2
    } else {
        0
    };
    assert(s.len() == 2 + c + a);
    assert(s[0] is Bind);
    assert(c == 1 ==> s[1] == BuildStep::<S>::ConnectServices(builder.isvc_api_secret->0));
    assert(a == 2 ==> s[1 + c] == BuildStep::<S>::EnsureSshServer(builder.roost->0.ssh_port));
    assert(a == 2 ==> s[2 + c] == BuildStep::<S>::AcceptPigeons(builder.roost->0.ssh_port));
    assert(s[1 + c + a] is SpawnRouter);
}

/// How late in the building of a tunnel a step comes.
pub open spec fn build_phase<S>(step: BuildStep<S>) -> nat {
    match step {
        BuildStep::Bind { .. } => 0,
        BuildStep::ConnectServices(_) => 1,
        BuildStep::EnsureSshServer(_) => 2,
        BuildStep::AcceptPigeons(_) => 3,
        BuildStep::SpawnRouter => 4,
    }
}

/// The steps of building a tunnel come in the order of their phases, and none
/// comes twice.
pub proof fn law_build_steps_follow_their_phases<S>(builder: TunnelBuilder<S>, i: int, j: int)
    requires
        0 <= i < j < builder.steps().len(),
    ensures
        build_phase(builder.steps()[i]) < build_phase(builder.steps()[j]),
{
}

/// A secret is in use exactly if telemetry was asked for and there is one, and it
/// is one of those that there are: that of the build only where the environment
/// has none.
pub proof fn law_secrets_are_used_where_there_are_any<S>(
    config: Config,
    environment: SecretLookup<S>,
    embedded: SecretLookup<S>,
)
    ensures
        secret_in_use(config, environment, embedded) is Some <==> config.telemetry_enabled == Some(
            true,
        ) && (environment is Found || embedded is Found),
        secret_in_use(config, environment, embedded) is Some && environment is Found ==> environment
            == SecretLookup::Found(secret_in_use(config, environment, embedded)->0),
        secret_in_use(config, environment, embedded) is Some && !(environment is Found) ==> embedded
            == SecretLookup::Found(secret_in_use(config, environment, embedded)->0),
{
}

/// A config that was loaded is that of the run; without one, no choice counts as
/// made.
pub proof fn law_runs_have_the_loaded_config<E>(loaded: Result<Config, E>)
    ensures
        loaded is Ok ==> run_config(loaded) == loaded->Ok_0,
        loaded is Err ==> run_config(loaded).telemetry_enabled is None,
{
}

} // verus!
