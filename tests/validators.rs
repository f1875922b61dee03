use sup_cli::addr::{GossipListenAddr, ListenAddr};
use sup_cli::service::{Topology, UpdateStrategy};
use sup_cli::validate::{
    dir_exists, dir_verdict, url_verdict, valid_listen_gossip, valid_listen_http,
    valid_service_group, valid_topology, valid_update_strategy, valid_url,
};

fn s(v: &str) -> String {
    v.to_string()
}

#[test]
fn listen_addresses_accepted() {
    for a in [
        "0.0.0.0:9638",
        "127.0.0.1:80",
        "255.255.255.255:65535",
        "1.2.3.4:00080",
        "[::1]:9631",
        "[::]:0",
        "[2001:db8::1]:8080",
        "[::ffff:192.168.0.1]:1",
        "[1:2:3:4:5:6:7:8]:1",
        "[1:2:3:4:5:6:1.2.3.4]:1",
        "[1:2:3:4:5:6:7::]:1",
        "[::2:3:4:5:6:7:8]:1",
        "[fe80::AbCd]:443",
    ] {
        assert_eq!(valid_listen_gossip(s(a)), Ok(()), "{}", a);
        assert_eq!(valid_listen_http(s(a)), Ok(()), "{}", a);
    }
}

#[test]
fn listen_addresses_rejected() {
    for a in [
        "",
        "0.0.0.0",
        "0.0.0.0:",
        ":9638",
        "256.0.0.1:1",
        "01.0.0.1:1",
        "1.2.3:1",
        "1.2.3.4.5:1",
        "1.2.3.4:65536",
        "1.2.3.4:-1",
        "localhost:80",
        "[::1]",
        "::1:80",
        "[::1]80",
        "[1:2:3:4:5:6:7:8:9]:1",
        "[1:2:3:4:5:6:7]:1",
        "[1::2::3]:1",
        "[12345::]:1",
        "[1.2.3.4::]:1",
        "[:::]:1",
        "[:1]:1",
        "[1:]:1",
        "[1:2:3:4:5:6:7:8::]:1",
        "[1:2:3:4:5:6:7:1.2.3.4]:1",
        "[::1]:1]",
        "[g::1]:1",
    ] {
        assert_eq!(
            valid_listen_gossip(s(a)),
            Err(s("Listen gossip address should include both IP and port, eg: '0.0.0.0:9700'")),
            "{}",
            a
        );
        assert_eq!(
            valid_listen_http(s(a)),
            Err(s("Listen http address should include both IP and port, eg: '0.0.0.0:9700'")),
            "{}",
            a
        );
    }
}

#[test]
fn listen_address_keeps_text() {
    let g = GossipListenAddr::from_str("10.0.0.1:9638").unwrap();
    assert_eq!(g.text, "10.0.0.1:9638");
    assert_eq!(g.port, 9638);
    let h = ListenAddr::from_str("[::1]:9631").unwrap();
    assert_eq!(h.text, "[::1]:9631");
    assert_eq!(h.port, 9631);
    assert_eq!(ListenAddr::from_str("1.2.3.4:00080").unwrap().port, 80);
    assert_eq!(ListenAddr::from_str("[::ffff:1.2.3.4]:65535").unwrap().port, 65535);
    assert_eq!(GossipListenAddr::from_str("0.0.0.0:0").unwrap().port, 0);
    assert!(ListenAddr::from_str("10.0.0.1").is_none());
}

#[test]
fn update_strategies() {
    assert_eq!(valid_update_strategy(s("none")), Ok(()));
    assert_eq!(valid_update_strategy(s("at-once")), Ok(()));
    assert_eq!(valid_update_strategy(s("rolling")), Ok(()));
    assert_eq!(
        valid_update_strategy(s("Rolling")),
        Err(s("Update strategy: 'Rolling' is not valid"))
    );
    assert_eq!(valid_update_strategy(s("")), Err(s("Update strategy: '' is not valid")));
    assert_eq!(UpdateStrategy::from_str("at-once"), Some(UpdateStrategy::AtOnce));
    assert_eq!(UpdateStrategy::from_str("none"), Some(UpdateStrategy::NoUpdate));
    assert_eq!(UpdateStrategy::from_str("atonce"), None);
}

#[test]
fn topologies() {
    assert_eq!(valid_topology(s("leader")), Ok(()));
    assert_eq!(valid_topology(s("standalone")), Ok(()));
    assert_eq!(valid_topology(s("follower")), Err(s("Service topology: 'follower' is not valid")));
    assert_eq!(valid_topology(s("leaders")), Err(s("Service topology: 'leaders' is not valid")));
    assert_eq!(Topology::from_str("leader"), Some(Topology::Leader));
    assert_eq!(Topology::from_str("standalone"), Some(Topology::Standalone));
}

#[test]
fn urls() {
    assert_eq!(valid_url(s("https://bldr.habitat.sh")), Ok(()));
    assert_eq!(valid_url(s("http://localhost:9636/v1")), Ok(()));
    assert_eq!(valid_url(s("not a url")), Err(s("URL: 'not a url' is not valid")));
    assert_eq!(valid_url(s("")), Err(s("URL: '' is not valid")));
    assert_eq!(url_verdict(true, "x"), Ok(()));
    assert_eq!(url_verdict(false, "x"), Err(s("URL: 'x' is not valid")));
}

#[test]
fn directories() {
    assert_eq!(dir_exists(s("/")), Ok(()));
    assert_eq!(
        dir_exists(s("/no/such/directory/here")),
        Err(s("Directory: '/no/such/directory/here' cannot be found"))
    );
    assert_eq!(dir_verdict(true, "/etc"), Ok(()));
    assert_eq!(dir_verdict(false, "/tmp/x"), Err(s("Directory: '/tmp/x' cannot be found")));
}

#[test]
fn service_groups() {
    for g in ["redis.default", "redis.default@acme", "myapp.prod#redis.default", "a.b@c", "x#a.b"] {
        assert_eq!(valid_service_group(s(g)), Ok(()), "{}", g);
    }
    for g in ["redis", "a.b.c", "redis.default@", ".b", "a.", "#a.b", "a#b#c.d", "a@b#c.d", "a.b@c.d", "a.b@c@d", ""] {
        assert_eq!(
            valid_service_group(s(g)),
            Err(format!(
                "Invalid service group: {}. A valid service group string is in the form service.group (example: redis.production)",
                g
            )),
            "{}",
            g
        );
    }
}
