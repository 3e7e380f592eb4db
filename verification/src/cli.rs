//! The `pigeons` command: its arguments, and the steps that each command takes.

use vstd::prelude::*;

use crate::text::{copied, strings};
use crate::tunnel::RoostConfig;

verus! {

/// The command line.
#[derive(Debug)]
pub struct Cli {
    pub cmd: Cmd,
}

/// A command.
#[derive(Debug)]
pub enum Cmd {
    /// Accept incoming pigeons and deliver them to the local SSH server.
    Roost(RoostArgs),
    /// Open a local tunnel to a remote roost.
    Fly(FlyArgs),
    /// Add an SSH config entry for a remote roost.
    Add(AddArgs),
    /// List the SSH config entries.
    List,
    /// Remove an SSH config entry.
    Remove(RemoveArgs),
    /// Manage the system service.
    Service { op: ServiceCmd },
    /// Print the version.
    Version,
    /// Start up and exit.
    SelfTest,
}

/// A command on the system service.
#[derive(Debug)]
pub enum ServiceCmd {
    /// Install it.
    Install { ssh_port: u16, relay_url: Vec<String> },
    /// Uninstall it.
    Uninstall,
    /// Restart it.
    Restart,
    /// Show whether it runs.
    Status,
    /// Show its log.
    Log,
}

/// The arguments of `roost`.
#[derive(Debug)]
pub struct RoostArgs {
    /// The port of the local SSH server.
    pub ssh_port: u16,
    /// Whether to use a throwaway identity.
    pub ephemeral: bool,
    /// Relay servers to use in place of the public ones.
    pub relay_url: Vec<String>,
}

/// The arguments of `fly`.
#[derive(Debug)]
pub struct FlyArgs {
    /// The public key of the remote roost.
    pub public_key: String,
    /// Whether to bridge standard input and output.
    pub stdio: bool,
    /// Relay servers to use in place of the public ones.
    pub relay_url: Vec<String>,
    /// The directory with the keys to fly under; without one the identity is a
    /// throwaway.
    pub key_dir: Option<String>,
    /// An address of the remote roost to try without a relay.
    pub direct_address: Option<String>,
}

/// The arguments of `add`.
#[derive(Debug)]
pub struct AddArgs {
    /// The identifier of the remote roost.
    pub id: String,
    /// The name of the route.
    pub name: Option<String>,
}

/// The arguments of `remove`.
#[derive(Debug)]
pub struct RemoveArgs {
    /// The name of the route.
    pub name: String,
}

/// What a command has to know of where it runs.
#[derive(Clone, Copy, Debug, PartialEq, Eq, Structural)]
pub struct Host {
    /// Whether it runs with the rights of an administrator.
    pub elevated: bool,
    /// Whether the platform is Linux.
    pub linux: bool,
    /// Whether files have Unix modes.
    pub unix: bool,
}

/// The directory in which a service publishes the identifier of its endpoint.
pub const PUBLIC_DIR: &'static str = "/etc/pigeons";

/// The name of the file in it.
pub const ENDPOINT_ID_FILE: &'static str = "endpoint_id";

/// A message about something that was done.
#[derive(Clone, Copy, Debug, PartialEq, Eq, Structural)]
pub enum Message {
    RoostRunning,
    RouteAdded,
    RouteRemoved,
    ServiceInstalled,
    ServiceUninstalled,
    ServiceRestarted,
}

/// One step of a command.
#[derive(Clone, Copy, Debug, PartialEq, Eq, Structural)]
pub enum Step {
    /// Find the user's SSH directory.
    FindSshDir,
    /// Start a tunnel under a throwaway identity.
    NewIdentity,
    /// Start a tunnel under the identity in the SSH directory.
    IdentityFromSshDir,
    /// Start a tunnel under the identity in the given key directory.
    IdentityFromKeyDir,
    /// Give the tunnel a roost.
    SetRoost(RoostConfig),
    /// Read the given relay addresses and give them to the tunnel.
    AddRelays,
    /// Set up the update receiver, if one is configured, on the tunnel.
    SetUpUpdates,
    /// Build the tunnel.
    BuildTunnel,
    /// Create the directory of the published identifier.
    CreatePublicDir,
    /// Publish the identifier of the tunnel's endpoint.
    PublishEndpointId,
    /// Set the mode of the published identifier.
    SetEndpointIdMode(u32),
    /// Tell the watchdog that this roost is up.
    TouchReadyFile,
    /// Wait until the user interrupts.
    WaitForInterrupt,
    /// Close the tunnel.
    CloseTunnel,
    /// Read the identifier of the remote roost.
    ParseRemote,
    /// Bridge standard input and output to the remote roost.
    BridgeStdio,
    /// Listen for local connections until that fails or the user interrupts.
    Listen,
    /// Check the name and the identifier of a route.
    CheckRoute,
    /// Add the route.
    AddRoute,
    /// List the routes.
    ListRoutes,
    /// Remove the route.
    RemoveRoute,
    /// Print the version.
    PrintVersion,
    /// Find the binary that the service is to run.
    ResolveBinary,
    /// Publish the installing user's telemetry choice to the service.
    PublishTelemetryChoice,
    /// Run this command once more with the rights of an administrator.
    Elevate,
    /// Install the service, for an SSH server on this port.
    InstallService { ssh_port: u16 },
    /// Uninstall the service.
    UninstallService,
    /// Restart the service.
    RestartService,
    /// Show whether the service runs.
    ShowStatus,
    /// Show the log of the service.
    ShowLog,
    /// Say that something was done.
    Say(Message),
}

/// What becomes of a command if a step fails.
#[derive(Clone, Copy, Debug, PartialEq, Eq, Structural)]
pub enum OnFailure {
    /// It ends with the error.
    Abort,
    /// The error is logged, and the next step is taken.
    Warn,
    /// The error is printed, and the next step is taken.
    Print,
}

/// The steps of `roost`. Updates are for a roost that runs as the service: they
/// are not received without the rights to put them in place, nor under a
/// throwaway identity.
pub open spec fn roost_steps(args: RoostArgs, host: Host) -> Seq<Step> {
    seq![
        Step::FindSshDir,
        if args.ephemeral {
            Step::NewIdentity
        } else {
            Step::IdentityFromSshDir
        },
        Step::SetRoost(RoostConfig { ssh_port: args.ssh_port }),
        Step::AddRelays,
    ] + (if host.linux && host.elevated && !args.ephemeral {
        seq![Step::SetUpUpdates]
    } else {
        seq![]
    }) + seq![Step::BuildTunnel] + (if host.elevated {
        seq![Step::CreatePublicDir, Step::PublishEndpointId]
    } else {
        seq![]
    }) + (if host.elevated && host.unix {
        seq![Step::SetEndpointIdMode(0o644)]
    } else {
        seq![]
    }) + (if host.linux && host.elevated {
        seq![Step::TouchReadyFile]
    } else {
        seq![]
    }) + seq![Step::Say(Message::RoostRunning), Step::WaitForInterrupt, Step::CloseTunnel]
}

/// The steps of `fly`.
pub open spec fn fly_steps(args: FlyArgs) -> Seq<Step> {
    seq![
        if args.key_dir is Some {
            Step::IdentityFromKeyDir
        } else {
            Step::NewIdentity
        },
        Step::AddRelays,
        Step::BuildTunnel,
        Step::ParseRemote,
        if args.stdio {
            Step::BridgeStdio
        } else {
            Step::Listen
        },
        Step::CloseTunnel,
    ]
}

/// The steps of a command on the service.
pub open spec fn service_steps(op: ServiceCmd, host: Host) -> Seq<Step> {
    match op {
        ServiceCmd::Install { ssh_port, .. } => if host.elevated {
            seq![
                Step::ResolveBinary,
                Step::PublishTelemetryChoice,
                Step::InstallService { ssh_port },
                Step::Say(Message::ServiceInstalled),
            ]
        } else {
            seq![Step::ResolveBinary, Step::Elevate]
        },
        ServiceCmd::Uninstall => if host.elevated {
            seq![Step::UninstallService, Step::Say(Message::ServiceUninstalled)]
        } else {
            seq![Step::Elevate]
        },
        ServiceCmd::Restart => if host.elevated {
            seq![Step::RestartService, Step::Say(Message::ServiceRestarted)]
        } else {
            seq![Step::Elevate]
        },
        ServiceCmd::Status => seq![Step::ShowStatus],
        ServiceCmd::Log => seq![Step::ShowLog],
    }
}

/// The steps of a command.
pub open spec fn steps_of(cmd: Cmd, host: Host) -> Seq<Step> {
    match cmd {
        Cmd::Roost(args) => roost_steps(args, host),
        Cmd::Fly(args) => fly_steps(args),
        Cmd::Add(_) => seq![Step::CheckRoute, Step::AddRoute, Step::Say(Message::RouteAdded)],
        Cmd::List => seq![Step::ListRoutes],
        Cmd::Remove(_) => seq![Step::RemoveRoute, Step::Say(Message::RouteRemoved)],
        Cmd::Service { op } => service_steps(op, host),
        Cmd::Version => seq![Step::PrintVersion],
        Cmd::SelfTest => seq![],
    }
}

fn run_roost(args: &RoostArgs, host: Host) -> (r: Vec<Step>)
    ensures
        r@ == roost_steps(*args, host),
{
    let mut steps: Vec<Step> = Vec::new();
    steps.push(Step::FindSshDir);
    steps.push(
        if args.ephemeral {
            Step::NewIdentity
        } else {
            Step::IdentityFromSshDir
        },
    );
    steps.push(Step::SetRoost(RoostConfig { ssh_port: args.ssh_port }));
    steps.push(Step::AddRelays);
    if host.linux && host.elevated && !args.ephemeral {
        steps.push(Step::SetUpUpdates);
    }
    steps.push(Step::BuildTunnel);
    if host.elevated {
        steps.push(Step::CreatePublicDir);
        steps.push(Step::PublishEndpointId);
        if host.unix {
            steps.push(Step::SetEndpointIdMode(0o644));
        }
    }
    if host.linux && host.elevated {
        steps.push(Step::TouchReadyFile);
    }
    steps.push(Step::Say(Message::RoostRunning));
    steps.push(Step::WaitForInterrupt);
    steps.push(Step::CloseTunnel);
    assert(steps@ == roost_steps(*args, host));
    steps
}

fn run_fly(args: &FlyArgs) -> (r: Vec<Step>)
    ensures
        r@ == fly_steps(*args),
{
    let mut steps: Vec<Step> = Vec::new();
    steps.push(
        if args.key_dir.is_some() {
            Step::IdentityFromKeyDir
        } else {
            Step::NewIdentity
        },
    );
    steps.push(Step::AddRelays);
    steps.push(Step::BuildTunnel);
    steps.push(Step::ParseRemote);
    steps.push(
        if args.stdio {
            Step::BridgeStdio
        } else {
            Step::Listen
        },
    );
    steps.push(Step::CloseTunnel);
    assert(steps@ == fly_steps(*args));
    steps
}

fn run_service(op: &ServiceCmd, host: Host) -> (r: Vec<Step>)
    ensures
        r@ == service_steps(*op, host),
{
    let steps: Vec<Step> = match op {
        ServiceCmd::Install { ssh_port, .. } => if host.elevated {
            vec![
                Step::ResolveBinary,
                Step::PublishTelemetryChoice,
                Step::InstallService { ssh_port: *ssh_port },
                Step::Say(Message::ServiceInstalled),
            ]
        } else {
            vec![Step::ResolveBinary, Step::Elevate]
        },
        ServiceCmd::Uninstall => if host.elevated {
            vec![Step::UninstallService, Step::Say(Message::ServiceUninstalled)]
        } else {
            vec![Step::Elevate]
        },
        ServiceCmd::Restart => if host.elevated {
            vec![Step::RestartService, Step::Say(Message::ServiceRestarted)]
        } else {
            vec![Step::Elevate]
        },
        ServiceCmd::Status => vec![Step::ShowStatus],
        ServiceCmd::Log => vec![Step::ShowLog],
    };
    assert(steps@ == service_steps(*op, host));
    steps
}

/// The steps that a command takes, in order.
pub fn run(cli: &Cli, host: Host) -> (r: Vec<Step>)
    ensures
        r@ == steps_of(cli.cmd, host),
{
    let steps: Vec<Step> = match &cli.cmd {
        Cmd::Roost(args) => run_roost(args, host),
        Cmd::Fly(args) => run_fly(args),
        Cmd::Add(_) => vec![Step::CheckRoute, Step::AddRoute, Step::Say(Message::RouteAdded)],
        Cmd::List => vec![Step::ListRoutes],
        Cmd::Remove(_) => vec![Step::RemoveRoute, Step::Say(Message::RouteRemoved)],
        Cmd::Service { op } => run_service(op, host),
        Cmd::Version => vec![Step::PrintVersion],
        Cmd::SelfTest => Vec::new(),
    };
    assert(steps@ == steps_of(cli.cmd, host));
    steps
}

/// The relay addresses that a command was given, as texts.
pub open spec fn relays_given(cmd: Cmd) -> Seq<Seq<char>> {
    match cmd {
        Cmd::Roost(args) => strings(args.relay_url@),
        Cmd::Fly(args) => strings(args.relay_url@),
        Cmd::Service { op: ServiceCmd::Install { relay_url, .. } } => strings(relay_url@),
        _ => seq![],
    }
}

/// The relay addresses that a command was given, in order; none for a command
/// that takes none.
pub fn relay_urls_of(cmd: &Cmd) -> (r: Vec<String>)
    ensures
        strings(r@) == relays_given(*cmd),
{
    match cmd {
        Cmd::Roost(args) => copied(&args.relay_url),
        Cmd::Fly(args) => copied(&args.relay_url),
        Cmd::Service { op: ServiceCmd::Install { relay_url, .. } } => copied(relay_url),
        _ => {
            let none: Vec<String> = Vec::new();
            assert(strings(none@) == Seq::<Seq<char>>::empty());
            none
        },
    }
}

/// What the system service is installed with.
#[derive(Debug, PartialEq, Eq)]
pub struct ServiceParams<D> {
    /// The port of the local SSH server.
    pub ssh_port: u16,
    /// Relay servers to use in place of the public ones.
    pub relay_url: Vec<String>,
    /// The binary that the service runs.
    pub binary_path: D,
}

/// What the system service is installed with, from the binary that was found;
/// none for a command that does not install it.
pub fn service_params<D>(cmd: &Cmd, binary_path: D) -> (r: Option<ServiceParams<D>>)
    ensures
        match *cmd {
            Cmd::Service { op: ServiceCmd::Install { ssh_port, relay_url } } => r is Some
                && r->0.ssh_port == ssh_port && strings(r->0.relay_url@) == strings(relay_url@)
                && r->0.binary_path == binary_path,
            _ => r is None,
        },
{
    match cmd {
        Cmd::Service { op: ServiceCmd::Install { ssh_port, .. } } => Some(
            ServiceParams { ssh_port: *ssh_port, relay_url: relay_urls_of(cmd), binary_path },
        ),
        _ => None,
    }
}

/// What becomes of a command if this step of it fails.
pub open spec fn failure_of(step: Step) -> OnFailure {
    match step {
        Step::TouchReadyFile => OnFailure::Warn,
        Step::PublishTelemetryChoice => OnFailure::Warn,
        Step::Listen => OnFailure::Print,
        _ => OnFailure::Abort,
    }
}

/// What becomes of a command if this step of it fails. A roost that cannot
/// reach the watchdog runs on; a service is installed also if the telemetry
/// choice cannot be published to it; a listener that fails still closes its
/// tunnel.
pub fn on_failure(step: Step) -> (r: OnFailure)
    ensures
        r == failure_of(step),
{
    match step {
        Step::TouchReadyFile => OnFailure::Warn,
        Step::PublishTelemetryChoice => OnFailure::Warn,
        Step::Listen => OnFailure::Print,
        _ => OnFailure::Abort,
    }
}

/// How a command goes on.
#[derive(Clone, Copy, Debug, PartialEq, Eq, Structural)]
pub enum Proceed {
    /// Take this step.
    Take(Step),
    /// All steps were taken.
    Done,
    /// The error of the last step is that of the command.
    Abort,
}

/// How a command goes on after some of its steps, the last of which may have
/// failed.
pub open spec fn proceeding(steps: Seq<Step>, taken: int, failed: bool) -> Proceed {
    if taken > 0 && failed && failure_of(steps[taken - 1]) is Abort {
        Proceed::Abort
    } else if taken < steps.len() {
        Proceed::Take(steps[taken])
    } else {
        Proceed::Done
    }
}

/// How a command goes on after `taken` of its steps, the last of which failed
/// if `failed` says so.
pub fn proceed(steps: &Vec<Step>, taken: usize, failed: bool) -> (r: Proceed)
    requires
        taken <= steps@.len(),
    ensures
        r == proceeding(steps@, taken as int, failed),
{
    if taken > 0 && failed {
        match on_failure(steps[taken - 1]) {
            OnFailure::Abort => {
                return Proceed::Abort;
            },
            _ => {},
        }
    }
    if taken < steps.len() {
        Proceed::Take(steps[taken])
    } else {
        Proceed::Done
    }
}

/// Whether a step changes what belongs to the machine and not to a user.
pub open spec fn machine_wide(step: Step) -> bool {
    ||| step is SetUpUpdates
    ||| step is CreatePublicDir
    ||| step is PublishEndpointId
    ||| step is SetEndpointIdMode
    ||| step is TouchReadyFile
    ||| step is PublishTelemetryChoice
    ||| step is InstallService
    ||| step is UninstallService
    ||| step is RestartService
}

/// Without the rights of an administrator no command changes what belongs to
/// the machine.
pub proof fn law_machine_wide_steps_need_rights(cmd: Cmd, host: Host, i: int)
    requires
        0 <= i < steps_of(cmd, host).len(),
        machine_wide(steps_of(cmd, host)[i]),
    ensures
        host.elevated,
{
}

/// A command asks for the rights of an administrator only if it lacks them, and
/// does nothing after it asked.
pub proof fn law_elevate_is_last(cmd: Cmd, host: Host, i: int)
    requires
        0 <= i < steps_of(cmd, host).len(),
        steps_of(cmd, host)[i] is Elevate,
    ensures
        !host.elevated,
        i == steps_of(cmd, host).len() - 1,
{
}

/// Updates are received, and the watchdog is told of a start, on Linux alone and
/// with the rights of an administrator; and updates are received by a roost
/// alone, under an identity that it keeps.
pub proof fn law_updates_on_linux_only(cmd: Cmd, host: Host, i: int)
    requires
        0 <= i < steps_of(cmd, host).len(),
        steps_of(cmd, host)[i] is SetUpUpdates || steps_of(cmd, host)[i] is TouchReadyFile,
    ensures
        host.linux && host.elevated,
        steps_of(cmd, host)[i] is SetUpUpdates ==> cmd is Roost && !cmd->Roost_0.ephemeral,
{
}

/// The watchdog is told of a start only after the tunnel was built and its
/// identifier published, and a failure of either would have ended the command.
pub proof fn law_ready_only_when_up(cmd: Cmd, host: Host, i: int)
    requires
        0 <= i < steps_of(cmd, host).len(),
        steps_of(cmd, host)[i] is TouchReadyFile,
    ensures
        exists|j: int, k: int|
            0 <= j < k < i && steps_of(cmd, host)[j] is BuildTunnel && steps_of(cmd, host)[k]
                is PublishEndpointId && #[trigger] failure_of(steps_of(cmd, host)[j]) is Abort
                && #[trigger] failure_of(steps_of(cmd, host)[k]) is Abort,
{
    let s = steps_of(cmd, host);
    let built: int = if s[4] is SetUpUpdates {
        5
    } else {
        4
    };
    assert(s[built] is BuildTunnel && failure_of(s[built]) is Abort);
    assert(s[built + 2] is PublishEndpointId && failure_of(s[built + 2]) is Abort);
}

/// The steps of a command that builds a tunnel end with closing it.
pub proof fn law_built_tunnels_are_closed(cmd: Cmd, host: Host, i: int)
    requires
        0 <= i < steps_of(cmd, host).len(),
        steps_of(cmd, host)[i] is BuildTunnel,
    ensures
        steps_of(cmd, host).last() is CloseTunnel,
{
}

/// The binary of a service is found before rights are asked for, so that the
/// user sees what is wrong with it.
pub proof fn law_binary_before_elevation(ssh_port: u16, relay_url: Vec<String>, host: Host)
    ensures
        steps_of(Cmd::Service { op: ServiceCmd::Install { ssh_port, relay_url } }, host)[0]
            is ResolveBinary,
{
}

/// The telemetry choice is published before the service is installed, which reads
/// it when it starts.
pub proof fn law_choice_before_service(cmd: Cmd, host: Host, i: int)
    requires
        0 <= i < steps_of(cmd, host).len(),
        steps_of(cmd, host)[i] is InstallService,
    ensures
        i > 0,
        steps_of(cmd, host)[i - 1] is PublishTelemetryChoice,
{
}

/// The step that comes next is always the one after those that were taken: none
/// is skipped or taken twice.
pub proof fn law_steps_in_order(steps: Seq<Step>, taken: int, failed: bool, step: Step)
    requires
        0 <= taken <= steps.len(),
        proceeding(steps, taken, failed) == Proceed::Take(step),
    ensures
        taken < steps.len(),
        step == steps[taken],
        failed && taken > 0 ==> failure_of(steps[taken - 1]) !is Abort,
{
}

/// A roost does what it was asked for and nothing else. It has the identity and
/// the port of its arguments; it takes updates, publishes its identifier and
/// tells the watchdog exactly on the hosts where that is due; and it always
/// reads its relays, builds, runs until it is interrupted, and closes.
pub proof fn law_roosts_do_what_they_are_asked(args: RoostArgs, host: Host, step: Step)
    ensures
        steps_of(Cmd::Roost(args), host).contains(step) <==> match step {
            Step::NewIdentity => args.ephemeral,
            Step::IdentityFromSshDir => !args.ephemeral,
            Step::SetRoost(roost) => roost.ssh_port == args.ssh_port,
            Step::SetUpUpdates => host.linux && host.elevated && !args.ephemeral,
            Step::CreatePublicDir => host.elevated,
            Step::PublishEndpointId => host.elevated,
            Step::SetEndpointIdMode(mode) => host.elevated && host.unix && mode == 0o644,
            Step::TouchReadyFile => host.linux && host.elevated,
            Step::Say(message) => message is RoostRunning,
            _ => step is FindSshDir || step is AddRelays || step is BuildTunnel
                || step is WaitForInterrupt || step is CloseTunnel,
        },
{
    let s = steps_of(Cmd::Roost(args), host);
    let u: int = if host.linux && host.elevated && !args.ephemeral {
        1
    } else {
        0
    };
    let p: int = if host.elevated {
        2
    } else {
        0
    };
    let m: int = if host.elevated && host.unix {
        1
    } else {
        0
    };
    let t: int = if host.linux && host.elevated {
        1
    } else {
        0
    };
    assert(s.len() == 8 + u + p + m + t);
    assert(s[0] is FindSshDir);
    assert(s[1] is NewIdentity || s[1] is IdentityFromSshDir);
    assert(s[2] is SetRoost);
    assert(s[3] is AddRelays);
    assert(u == 1 ==> s[4] is SetUpUpdates);
    assert(s[4 + u] is BuildTunnel);
    assert(p == 2 ==> s[5 + u] is CreatePublicDir && s[6 + u] is PublishEndpointId);
    assert(m == 1 ==> s[5 + u + p] == Step::SetEndpointIdMode(0o644));
    assert(t == 1 ==> s[5 + u + p + m] is TouchReadyFile);
    assert(s[5 + u + p + m + t] == Step::Say(Message::RoostRunning));
    assert(s[6 + u + p + m + t] is WaitForInterrupt);
    assert(s[7 + u + p + m + t] is CloseTunnel);
}

/// A pigeon flies under the identity in the key directory it was given, or else
/// under a throwaway one; it bridges standard input and output exactly if it was
/// asked to, and listens on a local port exactly if it was not, whatever the
/// other arguments and the host.
pub proof fn law_pigeons_fly_as_they_are_asked(args: FlyArgs, host: Host, step: Step)
    ensures
        steps_of(Cmd::Fly(args), host).contains(step) <==> match step {
            Step::BridgeStdio => args.stdio,
            Step::Listen => !args.stdio,
            Step::IdentityFromKeyDir => args.key_dir is Some,
            Step::NewIdentity => args.key_dir is None,
            _ => step is AddRelays || step is BuildTunnel || step is ParseRemote
                || step is CloseTunnel,
        },
{
    let s = steps_of(Cmd::Fly(args), host);
    assert(s.len() == 6);
    assert(s[0] is IdentityFromKeyDir || s[0] is NewIdentity);
    assert(s[1] is AddRelays);
    assert(s[2] is BuildTunnel);
    assert(s[3] is ParseRemote);
    assert(s[4] is BridgeStdio || s[4] is Listen);
    assert(s[5] is CloseTunnel);
}

/// The service is changed exactly by the command that says so, with the rights of
/// an administrator; without them that command asks for them instead. What it
/// says it did is what it did, and looking at the service changes nothing.
pub proof fn law_services_are_managed_as_asked(op: ServiceCmd, host: Host, step: Step)
    ensures
        steps_of(Cmd::Service { op }, host).contains(step) <==> match step {
            Step::ResolveBinary => op is Install,
            Step::PublishTelemetryChoice => op is Install && host.elevated,
            Step::InstallService { ssh_port } => op is Install && host.elevated && ssh_port
                == op->ssh_port,
            Step::UninstallService => op is Uninstall && host.elevated,
            Step::RestartService => op is Restart && host.elevated,
            Step::Elevate => !host.elevated && (op is Install || op is Uninstall || op is Restart),
            Step::Say(message) => host.elevated && match message {
                Message::ServiceInstalled => op is Install,
                Message::ServiceUninstalled => op is Uninstall,
                Message::ServiceRestarted => op is Restart,
                _ => false,
            },
            Step::ShowStatus => op is Status,
            Step::ShowLog => op is Log,
            _ => false,
        },
{
    let s = steps_of(Cmd::Service { op }, host);
    assert(1 <= s.len() <= 4);
    assert(s.contains(s[0]));
    if s.len() > 1 {
        assert(s.contains(s[1]));
    }
    if s.len() > 2 {
        assert(s.contains(s[2]));
    }
    if s.len() > 3 {
        assert(s.contains(s[3]));
    }
}

/// The commands on routes do what they are called, on every host: what is added
/// was checked, and only what was done is said. The version is printed by its own
/// command alone, and a self test does nothing.
pub proof fn law_other_commands_do_what_they_are_called(cmd: Cmd, host: Host, step: Step)
    requires
        !(cmd is Roost || cmd is Fly || cmd is Service),
    ensures
        steps_of(cmd, host).contains(step) <==> match step {
            Step::CheckRoute => cmd is Add,
            Step::AddRoute => cmd is Add,
            Step::ListRoutes => cmd is List,
            Step::RemoveRoute => cmd is Remove,
            Step::PrintVersion => cmd is Version,
            Step::Say(message) => match message {
                Message::RouteAdded => cmd is Add,
                Message::RouteRemoved => cmd is Remove,
                _ => false,
            },
            _ => false,
        },
{
    let s = steps_of(cmd, host);
    assert(s.len() <= 3);
    if s.len() > 0 {
        assert(s.contains(s[0]));
    }
    if s.len() > 1 {
        assert(s.contains(s[1]));
    }
    if s.len() > 2 {
        assert(s.contains(s[2]));
    }
}

/// How late in a command a step comes: what is found, then what is set up, then
/// what is run, then what is said or closed.
pub open spec fn phase(step: Step) -> nat {
    match step {
        Step::FindSshDir => 0,
        Step::NewIdentity | Step::IdentityFromSshDir | Step::IdentityFromKeyDir => 1,
        Step::SetRoost(_) => 2,
        Step::AddRelays => 3,
        Step::SetUpUpdates => 4,
        Step::BuildTunnel => 5,
        Step::ParseRemote | Step::CreatePublicDir => 6,
        Step::BridgeStdio | Step::Listen | Step::PublishEndpointId => 7,
        Step::SetEndpointIdMode(_) => 8,
        Step::TouchReadyFile => 9,
        Step::ResolveBinary | Step::CheckRoute => 10,
        Step::PublishTelemetryChoice => 11,
        Step::InstallService { .. } | Step::UninstallService | Step::RestartService => 12,
        Step::AddRoute | Step::RemoveRoute | Step::ListRoutes => 12,
        Step::PrintVersion | Step::ShowStatus | Step::ShowLog | Step::Elevate => 12,
        Step::Say(_) => 13,
        Step::WaitForInterrupt => 14,
        Step::CloseTunnel => 15,
    }
}

#[verifier::rlimit(50)]
proof fn lemma_next_phase(cmd: Cmd, host: Host, i: int)
    requires
        0 <= i < steps_of(cmd, host).len() - 1,
    ensures
        phase(steps_of(cmd, host)[i]) < phase(steps_of(cmd, host)[i + 1]),
{
}

/// The steps of every command come in the order of their phases, and none comes
/// twice.
pub proof fn law_steps_follow_their_phases(cmd: Cmd, host: Host, i: int, j: int)
    requires
        0 <= i < j < steps_of(cmd, host).len(),
    ensures
        phase(steps_of(cmd, host)[i]) < phase(steps_of(cmd, host)[j]),
    decreases j - i,
{
    lemma_next_phase(cmd, host, j - 1);
    if i < j - 1 {
        law_steps_follow_their_phases(cmd, host, i, j - 1);
    }
}

/// Only telling the watchdog, publishing the telemetry choice and listening may
/// fail without ending the command, and only the failure of listening is printed.
pub proof fn law_few_steps_may_fail(step: Step)
    ensures
        failure_of(step) is Warn <==> step is TouchReadyFile || step is PublishTelemetryChoice,
        failure_of(step) is Print <==> step is Listen,
        failure_of(step) is Abort <==> !(step is TouchReadyFile || step is PublishTelemetryChoice
            || step is Listen),
{
}

/// A command goes on as long as its steps succeed and ends when all were taken; it
/// aborts exactly after the failure of a step that may not fail.
pub proof fn law_commands_end_when_they_have_to(steps: Seq<Step>, taken: int, failed: bool)
    requires
        0 <= taken <= steps.len(),
    ensures
        !failed && taken < steps.len() ==> proceeding(steps, taken, failed) == Proceed::Take(
            steps[taken],
        ),
        !failed && taken == steps.len() ==> proceeding(steps, taken, failed) is Done,
        failed && taken > 0 ==> (proceeding(steps, taken, failed) is Abort <==> !(
        steps[taken - 1] is TouchReadyFile || steps[taken - 1] is PublishTelemetryChoice
            || steps[taken - 1] is Listen)),
        !(proceeding(steps, taken, failed) is Abort) ==> proceeding(steps, taken, failed)
            == proceeding(steps, taken, false),
        taken == 0 ==> proceeding(steps, taken, failed) == proceeding(steps, taken, false),
{
}

/// The relays of a command are those that it was given, all of them and in order.
pub proof fn law_relays_are_those_given(cmd: Cmd, given: Vec<String>, i: int)
    requires
        match cmd {
            Cmd::Roost(args) => args.relay_url == given,
            Cmd::Fly(args) => args.relay_url == given,
            Cmd::Service { op } => op is Install && op->relay_url == given,
            _ => given@.len() == 0,
        },
    ensures
        relays_given(cmd).len() == given@.len(),
        0 <= i < given@.len() ==> relays_given(cmd)[i] == given@[i]@,
{
}

} // verus!
