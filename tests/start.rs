use sup_cli::params::{start_params, start_params_given, RawStart, StartError};
use sup_cli::schema::{start, Arity, Check, OptKey};
use sup_cli::service::{Topology, UpdateStrategy};

fn raw(pkg: Option<&str>) -> RawStart {
    RawStart {
        pkg_ident_or_artifact: pkg.map(|p| p.to_string()),
        listen_gossip: None,
        listen_http: None,
        name: None,
        organization: None,
        peer: vec![],
        permanent_peer: false,
        peer_watch_file: None,
        ring: None,
        application: None,
        environment: None,
        channel: None,
        group: None,
        bldr_url: None,
        topology: None,
        strategy: None,
        bind: vec![],
        config_dir: None,
        auto_update: false,
        events: None,
        password: None,
    }
}

fn some(v: &str) -> Option<String> {
    Some(v.to_string())
}

#[test]
fn redis_leader_rolling_accepted_with_defaults() {
    let mut r = raw(Some("core/redis"));
    r.listen_gossip = some("0.0.0.0:9638");
    r.topology = some("leader");
    r.strategy = some("rolling");
    let p = start_params(r).unwrap();
    assert_eq!(p.pkg_ident_or_artifact, "core/redis");
    assert_eq!(p.topology, Some(Topology::Leader));
    assert_eq!(p.strategy, UpdateStrategy::Rolling);
    assert_eq!(p.listen_gossip.text, "0.0.0.0:9638");
    assert_eq!(p.listen_gossip.port, 9638);
    assert_eq!(p.listen_http.text, "0.0.0.0:9631");
    assert_eq!(p.listen_http.port, 9631);
    assert_eq!(p.name, "default");
    assert_eq!(p.organization, "default");
    assert_eq!(p.channel, "stable");
    assert_eq!(p.group, "default");
    assert_eq!(p.bldr_url, "https://bldr.habitat.sh");
    assert!(p.peers.is_empty());
    assert!(p.binds.is_empty());
    assert!(!p.permanent_peer && !p.auto_update);
    assert_eq!(p.app_env, None);
    assert_eq!(p.peer_watch_file, None);
    assert_eq!(p.ring, None);
    assert_eq!(p.config_dir, None);
    assert_eq!(p.events, None);
    assert_eq!(p.password, None);
}

#[test]
fn unset_topology_and_strategy_default_to_none() {
    let p = start_params(raw(Some("core/redis"))).unwrap();
    assert_eq!(p.topology, None);
    assert_eq!(p.strategy, UpdateStrategy::NoUpdate);
    assert_eq!(p.listen_gossip.text, "0.0.0.0:9638");
}

#[test]
fn peer_with_peer_watch_file_conflicts() {
    let mut r = raw(Some("core/redis"));
    r.peer = vec!["10.0.0.1".to_string()];
    r.peer_watch_file = some("/tmp/peers");
    assert!(matches!(
        start_params(r),
        Err(StartError::Conflict { option: OptKey::PeerWatchFile, other: OptKey::Peer })
    ));
}

#[test]
fn conflict_comes_before_any_check() {
    let mut r = raw(Some("core/redis"));
    r.peer = vec!["not an address".to_string()];
    r.peer_watch_file = some("/tmp/peers");
    r.listen_gossip = some("bogus");
    r.application = some("app");
    assert!(matches!(start_params_given(r, true), Err(StartError::Conflict { .. })));
}

#[test]
fn application_needs_environment() {
    let mut r = raw(Some("core/redis"));
    r.application = some("myapp");
    assert!(matches!(
        start_params(r),
        Err(StartError::MissingDependency { option: OptKey::Application, needs: OptKey::Environment })
    ));
    let mut r = raw(Some("core/redis"));
    r.environment = some("prod");
    r.topology = some("leader");
    assert!(matches!(
        start_params(r),
        Err(StartError::MissingDependency { option: OptKey::Environment, needs: OptKey::Application })
    ));
    let mut r = raw(Some("core/redis"));
    r.application = some("myapp");
    r.environment = some("prod");
    let p = start_params(r).unwrap();
    assert_eq!(p.app_env, Some(("myapp".to_string(), "prod".to_string())));
}

#[test]
fn package_argument_is_required() {
    let mut r = raw(None);
    r.application = some("myapp");
    r.listen_http = some("nope");
    assert!(matches!(
        start_params(r),
        Err(StartError::MissingRequired { option: OptKey::PkgIdentOrArtifact })
    ));
}

#[test]
fn first_failing_check_wins() {
    let mut r = raw(Some("core/redis"));
    r.listen_http = some("nope");
    r.topology = some("follower");
    match start_params(r) {
        Err(StartError::Invalid { option, reason }) => {
            assert_eq!(option, OptKey::ListenHttp);
            assert_eq!(
                reason,
                "Listen http address should include both IP and port, eg: '0.0.0.0:9700'"
            );
        }
        other => panic!("unexpected {:?}", other),
    }
    let mut r = raw(Some("core/redis"));
    r.strategy = some("sometimes");
    r.events = some("nodot");
    match start_params(r) {
        Err(StartError::Invalid { option, reason }) => {
            assert_eq!(option, OptKey::Strategy);
            assert_eq!(reason, "Update strategy: 'sometimes' is not valid");
        }
        other => panic!("unexpected {:?}", other),
    }
}

#[test]
fn invalid_value_comes_before_dependency() {
    let mut r = raw(Some("core/redis"));
    r.application = some("myapp");
    r.bldr_url = some("::");
    match start_params(r) {
        Err(StartError::Invalid { option, reason }) => {
            assert_eq!(option, OptKey::BldrUrl);
            assert_eq!(reason, "URL: '::' is not valid");
        }
        other => panic!("unexpected {:?}", other),
    }
}

#[test]
fn config_dir_is_checked_on_disk() {
    let mut r = raw(Some("core/redis"));
    r.config_dir = some("/no/such/config/dir");
    match start_params(r) {
        Err(StartError::Invalid { option, reason }) => {
            assert_eq!(option, OptKey::ConfigDir);
            assert_eq!(reason, "Directory: '/no/such/config/dir' cannot be found");
        }
        other => panic!("unexpected {:?}", other),
    }
    let mut r = raw(Some("core/redis"));
    r.config_dir = some("/");
    assert_eq!(start_params(r).unwrap().config_dir, some("/"));
    let mut r = raw(Some("core/redis"));
    r.config_dir = some("/anywhere");
    assert!(start_params_given(r, true).is_ok());
}

#[test]
fn values_are_carried_over() {
    let mut r = raw(Some("/tmp/core-redis.hart"));
    r.peer = vec!["10.0.0.1".to_string(), "10.0.0.2:9000".to_string()];
    r.bind = vec!["db:postgres.default".to_string()];
    r.permanent_peer = true;
    r.auto_update = true;
    r.ring = some("ring-key");
    r.channel = some("unstable");
    r.group = some("prod");
    r.name = some("second");
    r.organization = some("acme");
    r.events = some("eventsrv.default");
    r.listen_http = some("[::1]:8000");
    r.password = some("SECRET-REDACTED");
    let p = start_params(r).unwrap();
    assert_eq!(p.peers, vec!["10.0.0.1".to_string(), "10.0.0.2:9000".to_string()]);
    assert_eq!(p.binds, vec!["db:postgres.default".to_string()]);
    assert!(p.permanent_peer && p.auto_update);
    assert_eq!(p.ring, some("ring-key"));
    assert_eq!(p.channel, "unstable");
    assert_eq!(p.group, "prod");
    assert_eq!(p.name, "second");
    assert_eq!(p.organization, "acme");
    assert_eq!(p.events, some("eventsrv.default"));
    assert_eq!(p.listen_http.text, "[::1]:8000");
    assert_eq!(p.listen_http.port, 8000);
    assert_eq!(p.password, some("SECRET-REDACTED"));
}

#[test]
fn schema_per_platform() {
    let linux = start("linux").unwrap();
    assert_eq!(linux.len(), 20);
    assert_eq!(linux[0], OptKey::ListenGossip);
    assert_eq!(linux[19], OptKey::Events);
    assert!(!linux.contains(&OptKey::Password));
    assert_eq!(start("macos").unwrap(), linux);
    let windows = start("windows").unwrap();
    assert_eq!(windows.len(), 21);
    assert_eq!(windows[20], OptKey::Password);
    assert_eq!(&windows[..20], &linux[..]);
    let err = start("freebsd").unwrap_err();
    assert_eq!(err.os, "freebsd");
}

#[test]
fn option_metadata() {
    assert_eq!(OptKey::Peer.arity(), Arity::Multiple);
    assert_eq!(OptKey::Bind.arity(), Arity::Multiple);
    assert_eq!(OptKey::PermanentPeer.arity(), Arity::Flag);
    assert_eq!(OptKey::AutoUpdate.arity(), Arity::Flag);
    assert_eq!(OptKey::PkgIdentOrArtifact.arity(), Arity::Positional);
    assert_eq!(OptKey::Ring.arity(), Arity::Single);
    assert_eq!(OptKey::ConfigDir.check(), Some(Check::DirExists));
    assert_eq!(OptKey::Events.check(), Some(Check::ServiceGroup));
    assert_eq!(OptKey::BldrUrl.check(), Some(Check::Url));
    assert_eq!(OptKey::Peer.check(), None);
    assert_eq!(OptKey::Application.depends_on(), Some(OptKey::Environment));
    assert_eq!(OptKey::Environment.depends_on(), Some(OptKey::Application));
    assert_eq!(OptKey::PeerWatchFile.conflicts_with(), Some(OptKey::Peer));
    assert_eq!(OptKey::Peer.conflicts_with(), None);
    assert_eq!(OptKey::ListenGossip.default_value(), Some("0.0.0.0:9638"));
    assert_eq!(OptKey::BldrUrl.default_value(), Some("https://bldr.habitat.sh"));
    assert_eq!(OptKey::Strategy.default_value(), Some("none"));
    assert_eq!(OptKey::Peer.default_value(), None);
    assert_eq!(OptKey::ConfigDir.long_flag(), Some("config-from"));
    assert_eq!(OptKey::Name.long_flag(), Some("override-name"));
    assert_eq!(OptKey::PkgIdentOrArtifact.long_flag(), None);
    assert_eq!(OptKey::Events.short_flag(), Some('n'));
    assert_eq!(OptKey::PermanentPeer.short_flag(), Some('I'));
    assert_eq!(OptKey::Peer.short_flag(), None);
}
