use pigeons::bridge::BridgeStep;
use pigeons::config::Config;
use pigeons::tunnel::{
    iroh_services_api_secret, look_in_build, look_in_environment, AfterClose, BuildStep,
    RelayChoice, RoostConfig, SecretLookup, TaskEnd, TunnelBuilder,
};

type Tunnel = pigeons::tunnel::Tunnel<(), ()>;
type Lookup = SecretLookup<&'static str>;

fn config(telemetry_enabled: Option<bool>) -> Config {
    Config { telemetry_enabled }
}

fn key() -> iroh_base::SecretKey {
    iroh_base::SecretKey::from_bytes(&[9u8; 32])
}

fn builder(choice: Option<bool>, environment: Lookup, embedded: Lookup) -> TunnelBuilder<&'static str> {
    TunnelBuilder::new(key(), config(choice), environment, embedded)
}

fn plain() -> TunnelBuilder<&'static str> {
    builder(None, Lookup::Absent, Lookup::Absent)
}

#[test]
fn a_roost_delivers_to_the_ssh_port() {
    assert_eq!(RoostConfig::default(), RoostConfig { ssh_port: 22 });
}

#[test]
fn no_secret_is_used_without_telemetry() {
    for choice in [None, Some(false)] {
        let found = || Lookup::Found("secret");
        assert_eq!(iroh_services_api_secret(&config(choice), found(), found()), None);
        assert!(!look_in_environment(&config(choice)));
        assert!(!look_in_build(&config(choice), &Lookup::Absent));
    }
}

#[test]
fn the_environment_comes_before_the_build() {
    let on = config(Some(true));
    let secret = |environment, embedded| iroh_services_api_secret(&on, environment, embedded);
    assert_eq!(secret(Lookup::Found("env"), Lookup::Found("build")), Some("env"));
    assert_eq!(secret(Lookup::Found("env"), Lookup::Invalid), Some("env"));
    assert_eq!(secret(Lookup::Invalid, Lookup::Found("build")), Some("build"));
    assert_eq!(secret(Lookup::Absent, Lookup::Found("build")), Some("build"));
    assert_eq!(secret(Lookup::Absent, Lookup::Invalid), None);
    assert_eq!(secret(Lookup::Invalid, Lookup::Absent), None);
    assert_eq!(secret(Lookup::Absent, Lookup::Absent), None);
}

#[test]
fn the_build_is_searched_only_if_the_environment_has_no_secret() {
    let on = config(Some(true));
    assert!(look_in_environment(&on));
    assert!(look_in_build(&on, &Lookup::Absent));
    assert!(look_in_build(&on, &Lookup::Invalid));
    assert!(!look_in_build(&on, &Lookup::Found("env")));
}

#[test]
fn places_that_are_not_searched_do_not_matter() {
    for choice in [None, Some(true), Some(false)] {
        let c = config(choice);
        for found in [true, false] {
            let environment = || if found { Lookup::Found("env") } else { Lookup::Invalid };
            let full = iroh_services_api_secret(&c, environment(), Lookup::Found("build"));
            let searched = if look_in_environment(&c) { environment() } else { Lookup::Absent };
            let below = if look_in_build(&c, &searched) {
                Lookup::Found("build")
            } else {
                Lookup::Absent
            };
            assert_eq!(iroh_services_api_secret(&c, searched, below), full);
        }
    }
}

#[test]
fn a_new_builder_has_the_secret_in_use() {
    let b = builder(Some(true), Lookup::Invalid, Lookup::Found("build"));
    assert_eq!(b.isvc_api_secret, Some("build"));
    assert_eq!(b.roost, None);
    assert!(b.relay_urls.is_empty());
    assert_eq!(b.config, config(Some(true)));
    assert_eq!(b.secret_key.to_bytes(), [9u8; 32]);
    assert_eq!(plain().isvc_api_secret, None);
}

#[test]
fn another_secret_can_be_given() {
    let b = plain().api_secret(Some("mine"));
    assert_eq!(b.isvc_api_secret, Some("mine"));
    assert_eq!(b.secret_key.to_bytes(), [9u8; 32]);
    assert_eq!(b.api_secret(None).isvc_api_secret, None);
}

#[test]
fn a_throwaway_identity_is_new_each_time() {
    let make = || {
        Tunnel::builder_ephemeral(
            Ok::<Config, ()>(config(Some(true))),
            Lookup::Found("env"),
            Lookup::Absent,
        )
    };
    let (a, b) = (make(), make());
    assert_ne!(a.secret_key.to_bytes(), b.secret_key.to_bytes());
    assert_eq!(a.isvc_api_secret, Some("env"));
    assert_eq!(a.config, config(Some(true)));
    assert_eq!(a.roost, None);
}

#[test]
fn a_config_that_does_not_load_is_the_default() {
    let b = Tunnel::builder_ephemeral(
        Err::<Config, &str>("broken"),
        Lookup::Found("env"),
        Lookup::Found("build"),
    );
    assert_eq!(b.config, Config::default());
    assert_eq!(b.isvc_api_secret, None);
}

#[test]
fn a_kept_identity_needs_its_key() {
    let b = Tunnel::builder_from_ssh_dir(
        Ok::<_, &str>(key()),
        Ok::<Config, ()>(config(None)),
        Lookup::Absent,
        Lookup::Absent,
    );
    assert_eq!(b.unwrap().secret_key.to_bytes(), [9u8; 32]);
    let none = Tunnel::builder_from_ssh_dir(
        Err("no key"),
        Ok::<Config, ()>(config(None)),
        Lookup::Absent,
        Lookup::Absent,
    );
    assert_eq!(none.unwrap_err(), "no key");
}

#[test]
fn a_plain_tunnel_binds_and_spawns() {
    let steps = plain().build();
    assert_eq!(steps.len(), 2);
    match &steps[0] {
        BuildStep::Bind { secret_key, relays } => {
            assert_eq!(secret_key.to_bytes(), [9u8; 32]);
            assert_eq!(*relays, RelayChoice::Public);
        }
        other => panic!("{other:?}"),
    }
    assert!(matches!(steps[1], BuildStep::SpawnRouter));
}

#[test]
fn a_roost_accepts_only_after_the_ssh_server_was_found() {
    let mut b = plain().api_secret(Some("mine"));
    b.roost = Some(RoostConfig { ssh_port: 2222 });
    b.relay_urls = vec![String::from("https://relay.example.org/")];
    let steps = b.build();
    assert_eq!(steps.len(), 5);
    match &steps[0] {
        BuildStep::Bind { relays, .. } => assert_eq!(
            *relays,
            RelayChoice::Custom(vec![String::from("https://relay.example.org/")])
        ),
        other => panic!("{other:?}"),
    }
    assert!(matches!(steps[1], BuildStep::ConnectServices("mine")));
    assert!(matches!(steps[2], BuildStep::EnsureSshServer(2222)));
    assert!(matches!(steps[3], BuildStep::AcceptPigeons(2222)));
    assert!(matches!(steps[4], BuildStep::SpawnRouter));
}

#[test]
fn flying_listens_on_a_free_local_port() {
    assert_eq!(Tunnel::fly(), "127.0.0.1:0");
}

#[test]
fn stdio_sends_the_preface_before_it_copies() {
    assert_eq!(
        Tunnel::fly_stdio(),
        vec![
            BridgeStep::Connect,
            BridgeStep::OpenStream,
            BridgeStep::WritePreface,
            BridgeStep::FlushPreface,
            BridgeStep::CopyStdio,
        ]
    );
}

#[test]
fn a_task_decides_the_outcome_and_closing_does_not() {
    type Task = TaskEnd<&'static str, &'static str>;
    for closed in [Ok(()), Err("stuck")] {
        let report = closed.err();
        assert_eq!(
            Tunnel::close_after(Task::Completed(Ok(())), closed),
            (report, AfterClose::Return(Ok(())))
        );
        assert_eq!(
            Tunnel::close_after(Task::Completed(Err("task")), closed),
            (report, AfterClose::Return(Err("task")))
        );
        assert_eq!(
            Tunnel::close_after(Task::Cancelled("stopped"), closed),
            (report, AfterClose::Return(Err("stopped")))
        );
        assert_eq!(
            Tunnel::close_after(Task::Panicked("panic"), closed),
            (report, AfterClose::ResumePanic("panic"))
        );
    }
}
