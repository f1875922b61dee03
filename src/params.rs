//! From the raw values that the command line gave to the startup parameter
//! set: the required argument, the conflict, the checks in declaration order
//! (the first failure ends the work), the dependency, then the defaults.
use vstd::prelude::*;
use vstd::string::StringExecFns;
use crate::addr::{is_socket_addr, socket_port, GossipListenAddr, ListenAddr};
use crate::schema::OptKey;
use crate::service::{topology_of, update_strategy_of, Topology, UpdateStrategy};
use crate::service_group::{is_service_group, service_group_error};
use crate::validate::{
    dir_error, dir_verdict, gossip_error, http_error, strategy_error, topology_error, url_error,
    is_directory, url_parses, valid_listen_gossip, valid_listen_http, valid_service_group, valid_topology,
    valid_update_strategy, valid_url,
};

verus! {

/// What the command line gave for each option of `start`: the values of
/// those given, the values of repeated options in order, and the flags.
#[derive(Clone, Debug)]
pub struct RawStart {
    pub pkg_ident_or_artifact: Option<String>,
    pub listen_gossip: Option<String>,
    pub listen_http: Option<String>,
    pub name: Option<String>,
    pub organization: Option<String>,
    pub peer: Vec<String>,
    pub permanent_peer: bool,
    pub peer_watch_file: Option<String>,
    pub ring: Option<String>,
    pub application: Option<String>,
    pub environment: Option<String>,
    pub channel: Option<String>,
    pub group: Option<String>,
    pub bldr_url: Option<String>,
    pub topology: Option<String>,
    pub strategy: Option<String>,
    pub bind: Vec<String>,
    pub config_dir: Option<String>,
    pub auto_update: bool,
    pub events: Option<String>,
    pub password: Option<String>,
}

/// The validated startup parameters handed to the supervisor.
#[derive(Clone, Debug)]
pub struct StartParams {
    pub pkg_ident_or_artifact: String,
    pub listen_gossip: GossipListenAddr,
    pub listen_http: ListenAddr,
    pub name: String,
    pub organization: String,
    pub peers: Vec<String>,
    pub permanent_peer: bool,
    pub peer_watch_file: Option<String>,
    pub ring: Option<String>,
    /// the application and environment, given together or not at all
    pub app_env: Option<(String, String)>,
    pub channel: String,
    pub group: String,
    pub bldr_url: String,
    /// `None` when no topology is given
    pub topology: Option<Topology>,
    pub strategy: UpdateStrategy,
    pub binds: Vec<String>,
    pub config_dir: Option<String>,
    pub auto_update: bool,
    pub events: Option<String>,
    pub password: Option<String>,
}

/// Why a command line was refused.
#[derive(Clone, Debug)]
pub enum StartError {
    /// a required argument is missing
    MissingRequired { option: OptKey },
    /// two options that exclude each other were both given
    Conflict { option: OptKey, other: OptKey },
    /// a value failed its option's check
    Invalid { option: OptKey, reason: String },
    /// an option was given without the one it depends on
    MissingDependency { option: OptKey, needs: OptKey },
}

pub open spec fn given(o: Option<String>) -> bool {
    o is Some
}

pub open spec fn or_default(o: Option<String>, d: Seq<char>) -> Seq<char> {
    match o {
        Some(v) => v@,
        None => d,
    }
}

pub open spec fn peer_conflict(raw: RawStart) -> bool {
    raw.peer@.len() > 0 && given(raw.peer_watch_file)
}

pub open spec fn lacks_dependency(raw: RawStart) -> bool {
    given(raw.application) != given(raw.environment)
}

/// The first option, in declaration order, whose value fails its check, with
/// the reason; `dir_found` tells whether a directory stands at the
/// `--config-from` path.
pub open spec fn first_invalid(raw: RawStart, dir_found: bool) -> Option<(OptKey, Seq<char>)> {
    if given(raw.listen_gossip) && !is_socket_addr(raw.listen_gossip->0@) {
        Some((OptKey::ListenGossip, gossip_error()))
    } else if given(raw.listen_http) && !is_socket_addr(raw.listen_http->0@) {
        Some((OptKey::ListenHttp, http_error()))
    } else if given(raw.bldr_url) && !url_parses(raw.bldr_url->0@) {
        Some((OptKey::BldrUrl, url_error(raw.bldr_url->0@)))
    } else if given(raw.topology) && topology_of(raw.topology->0@) is None {
        Some((OptKey::Topology, topology_error(raw.topology->0@)))
    } else if given(raw.strategy) && update_strategy_of(raw.strategy->0@) is None {
        Some((OptKey::Strategy, strategy_error(raw.strategy->0@)))
    } else if given(raw.config_dir) && !dir_found {
        Some((OptKey::ConfigDir, dir_error(raw.config_dir->0@)))
    } else if given(raw.events) && !is_service_group(raw.events->0@) {
        Some((OptKey::Events, service_group_error(raw.events->0@)))
    } else {
        None
    }
}

/// `p` holds the values of `raw`, with the documented defaults for those
/// not given.
pub open spec fn projects(raw: RawStart, p: StartParams) -> bool {
    &&& raw.pkg_ident_or_artifact matches Some(v) && p.pkg_ident_or_artifact@ == v@
    &&& (match raw.listen_gossip {
        Some(v) => p.listen_gossip.text@ == v@ && p.listen_gossip.port == socket_port(v@),
        None => p.listen_gossip.text@ == "0.0.0.0:9638"@ && p.listen_gossip.port == 9638,
    })
    &&& (match raw.listen_http {
        Some(v) => p.listen_http.text@ == v@ && p.listen_http.port == socket_port(v@),
        None => p.listen_http.text@ == "0.0.0.0:9631"@ && p.listen_http.port == 9631,
    })
    &&& p.name@ == or_default(raw.name, "default"@)
    &&& p.organization@ == or_default(raw.organization, "default"@)
    &&& p.peers@ == raw.peer@
    &&& p.permanent_peer == raw.permanent_peer
    &&& p.peer_watch_file == raw.peer_watch_file
    &&& p.ring == raw.ring
    &&& p.app_env == (match (raw.application, raw.environment) {
        (Some(a), Some(e)) => Some((a, e)),
        _ => None,
    })
    &&& p.channel@ == or_default(raw.channel, "stable"@)
    &&& p.group@ == or_default(raw.group, "default"@)
    &&& p.bldr_url@ == or_default(raw.bldr_url, "https://bldr.habitat.sh"@)
    &&& p.topology == (match raw.topology {
        Some(v) => topology_of(v@),
        None => None,
    })
    &&& (match raw.strategy {
        Some(v) => update_strategy_of(v@) == Some(p.strategy),
        None => p.strategy == UpdateStrategy::NoUpdate,
    })
    &&& p.binds@ == raw.bind@
    &&& p.config_dir == raw.config_dir
    &&& p.auto_update == raw.auto_update
    &&& p.events == raw.events
    &&& p.password == raw.password
}

fn text_or(o: Option<String>, d: &str) -> (r: String)
    ensures
        r@ == or_default(o, d@),
{
    match o {
        Some(v) => v,
        None => String::from_str(d),
    }
}

fn invalid(option: OptKey, res: Result<(), String>) -> (r: Result<(), StartError>)
    ensures
        res is Ok ==> r is Ok,
        res matches Err(m) ==> (r matches Err(StartError::Invalid { option: o, reason })
            && o == option && reason == m),
{
    match res {
        Ok(()) => Ok(()),
        Err(m) => Err(StartError::Invalid { option, reason: m }),
    }
}

/// What the checks of `start` yield on `raw`: the required argument first,
/// then the conflict, then each check in declaration order, then the
/// dependency, and otherwise the parameters; `dir_found` tells whether a
/// directory stands at the `--config-from` path.
pub open spec fn outcome(raw: RawStart, dir_found: bool, r: Result<StartParams, StartError>) -> bool {
    if !given(raw.pkg_ident_or_artifact) {
        r matches Err(StartError::MissingRequired { option }) && option
            == OptKey::PkgIdentOrArtifact
    } else if peer_conflict(raw) {
        r matches Err(StartError::Conflict { option, other }) && option == OptKey::PeerWatchFile
            && other == OptKey::Peer
    } else if first_invalid(raw, dir_found) is Some {
        let f = first_invalid(raw, dir_found)->0;
        r matches Err(StartError::Invalid { option, reason }) && option == f.0 && reason@ == f.1
    } else if given(raw.application) && !given(raw.environment) {
        r matches Err(StartError::MissingDependency { option, needs }) && option
            == OptKey::Application && needs == OptKey::Environment
    } else if !given(raw.application) && given(raw.environment) {
        r matches Err(StartError::MissingDependency { option, needs }) && option
            == OptKey::Environment && needs == OptKey::Application
    } else {
        r matches Ok(p) && projects(raw, p)
    }
}

/// Checks `raw` and builds the startup parameters from it; `dir_found` tells
/// whether a directory stands at the `--config-from` path.
pub fn start_params_given(raw: RawStart, dir_found: bool) -> (r: Result<StartParams, StartError>)
    ensures
        outcome(raw, dir_found, r),
        !given(raw.pkg_ident_or_artifact) ==> r is Err,
        lacks_dependency(raw) ==> r is Err,
        peer_conflict(raw) ==> r is Err,
{
    let RawStart {
        pkg_ident_or_artifact,
        listen_gossip,
        listen_http,
        name,
        organization,
        peer,
        permanent_peer,
        peer_watch_file,
        ring,
        application,
        environment,
        channel,
        group,
        bldr_url,
        topology,
        strategy,
        bind,
        config_dir,
        auto_update,
        events,
        password,
    } = raw;
    let pkg = match pkg_ident_or_artifact {
        Some(v) => v,
        None => {
            return Err(StartError::MissingRequired { option: OptKey::PkgIdentOrArtifact });
        },
    };
    if peer.len() > 0 && peer_watch_file.is_some() {
        return Err(StartError::Conflict { option: OptKey::PeerWatchFile, other: OptKey::Peer });
    }
    if let Some(v) = &listen_gossip {
        invalid(OptKey::ListenGossip, valid_listen_gossip(v.clone()))?;
    }
    if let Some(v) = &listen_http {
        invalid(OptKey::ListenHttp, valid_listen_http(v.clone()))?;
    }
    if let Some(v) = &bldr_url {
        invalid(OptKey::BldrUrl, valid_url(v.clone()))?;
    }
    if let Some(v) = &topology {
        invalid(OptKey::Topology, valid_topology(v.clone()))?;
    }
    if let Some(v) = &strategy {
        invalid(OptKey::Strategy, valid_update_strategy(v.clone()))?;
    }
    if let Some(v) = &config_dir {
        invalid(OptKey::ConfigDir, dir_verdict(dir_found, v.as_str()))?;
    }
    if let Some(v) = &events {
        invalid(OptKey::Events, valid_service_group(v.clone()))?;
    }
    let app_env = match (application, environment) {
        (Some(a), Some(e)) => Some((a, e)),
        (None, None) => None,
        (Some(_), None) => {
            return Err(
                StartError::MissingDependency {
                    option: OptKey::Application,
                    needs: OptKey::Environment,
                },
            );
        },
        (None, Some(_)) => {
            return Err(
                StartError::MissingDependency {
                    option: OptKey::Environment,
                    needs: OptKey::Application,
                },
            );
        },
    };
    let gossip = match listen_gossip {
        Some(v) => GossipListenAddr::from_str(v.as_str()).unwrap(),
        None => GossipListenAddr { text: String::from_str("0.0.0.0:9638"), port: 9638 },
    };
    let http = match listen_http {
        Some(v) => ListenAddr::from_str(v.as_str()).unwrap(),
        None => ListenAddr { text: String::from_str("0.0.0.0:9631"), port: 9631 },
    };
    let topo = match topology {
        Some(v) => Topology::from_str(v.as_str()),
        None => None,
    };
    let strat = match strategy {
        Some(v) => UpdateStrategy::from_str(v.as_str()).unwrap(),
        None => UpdateStrategy::NoUpdate,
    };
    Ok(
        StartParams {
            pkg_ident_or_artifact: pkg,
            listen_gossip: gossip,
            listen_http: http,
            name: text_or(name, "default"),
            organization: text_or(organization, "default"),
            peers: peer,
            permanent_peer,
            peer_watch_file,
            ring,
            app_env,
            channel: text_or(channel, "stable"),
            group: text_or(group, "default"),
            bldr_url: text_or(bldr_url, "https://bldr.habitat.sh"),
            topology: topo,
            strategy: strat,
            binds: bind,
            config_dir,
            auto_update,
            events,
            password,
        },
    )
}

/// Checks `raw` and builds the startup parameters from it, asking the
/// filesystem whether a directory stands at the `--config-from` path.
pub fn start_params(raw: RawStart) -> (r: Result<StartParams, StartError>)
    ensures
        exists|dir_found: bool| outcome(raw, dir_found, r),
        raw.config_dir is None ==> outcome(raw, false, r),
        !given(raw.pkg_ident_or_artifact) ==> r is Err,
        lacks_dependency(raw) ==> r is Err,
        peer_conflict(raw) ==> r is Err,
{
    let found = match &raw.config_dir {
        Some(v) => is_directory(v.as_str()),
        None => false,
    };
    let r = start_params_given(raw, found);
    assert(outcome(raw, found, r));
    r
}

} // verus!
