//! The checks that each validated option runs on its raw value: `Ok(())`
//! when the value is legal, else the reason it is not.
use vstd::prelude::*;
use vstd::string::StringExecFns;
use crate::addr::{is_socket_addr, GossipListenAddr, ListenAddr};
use crate::service::{topology_of, update_strategy_of, Topology, UpdateStrategy};
use crate::service_group::{is_service_group, is_service_group_exec, service_group_error};

verus! {

/// Whether the `url` crate parses the text as an absolute URL.
pub uninterp spec fn url_parses(s: Seq<char>) -> bool;

/// Relies on url::Url::parse: whether it returns `Ok` on the text.
#[verifier::external_body]
fn url_parse_ok(s: &str) -> (r: bool)
    ensures
        r == url_parses(s@),
{
    url::Url::parse(s).is_ok()
}

/// Relies on std::path::Path::is_dir: whether a directory stands at the path
/// when asked; an error while asking reads as no directory.
#[verifier::external_body]
pub(crate) fn is_directory(p: &str) -> (r: bool) {
    std::path::Path::new(p).is_dir()
}

pub open spec fn dir_error(v: Seq<char>) -> Seq<char> {
    "Directory: '"@ + v + "' cannot be found"@
}

pub open spec fn topology_error(v: Seq<char>) -> Seq<char> {
    "Service topology: '"@ + v + "' is not valid"@
}

pub open spec fn gossip_error() -> Seq<char> {
    "Listen gossip address should include both IP and port, eg: '0.0.0.0:9700'"@
}

pub open spec fn http_error() -> Seq<char> {
    "Listen http address should include both IP and port, eg: '0.0.0.0:9700'"@
}

pub open spec fn strategy_error(v: Seq<char>) -> Seq<char> {
    "Update strategy: '"@ + v + "' is not valid"@
}

pub open spec fn url_error(v: Seq<char>) -> Seq<char> {
    "URL: '"@ + v + "' is not valid"@
}

/// `prefix`, then `v`, then `suffix`.
fn framed(prefix: &str, v: &str, suffix: &str) -> (r: String)
    ensures
        r@ == prefix@ + v@ + suffix@,
{
    let mut m = String::from_str(prefix);
    m.append(v);
    m.append(suffix);
    m
}

/// The verdict on a `--config-from` value, given whether a directory stands
/// at that path.
pub fn dir_verdict(found: bool, val: &str) -> (r: Result<(), String>)
    ensures
        found ==> r is Ok,
        !found ==> (r matches Err(m) && m@ == dir_error(val@)),
{
    if found {
        Ok(())
    } else {
        Err(framed("Directory: '", val, "' cannot be found"))
    }
}

/// Accepts a path at which a directory stands; the filesystem decides.
pub fn dir_exists(val: String) -> (r: Result<(), String>)
    ensures
        r matches Err(m) ==> m@ == dir_error(val@),
{
    let found = is_directory(val.as_str());
    dir_verdict(found, val.as_str())
}

/// Accepts a service group name.
pub fn valid_service_group(val: String) -> (r: Result<(), String>)
    ensures
        r is Ok <==> is_service_group(val@),
        r matches Err(m) ==> m@ == service_group_error(val@),
{
    if is_service_group_exec(val.as_str()) {
        Ok(())
    } else {
        Err(
            framed(
                "Invalid service group: ",
                val.as_str(),
                ". A valid service group string is in the form service.group (example: redis.production)",
            ),
        )
    }
}

/// Accepts the name of a topology.
pub fn valid_topology(val: String) -> (r: Result<(), String>)
    ensures
        r is Ok <==> topology_of(val@) is Some,
        r matches Err(m) ==> m@ == topology_error(val@),
{
    match Topology::from_str(val.as_str()) {
        Some(_) => Ok(()),
        None => Err(framed("Service topology: '", val.as_str(), "' is not valid")),
    }
}

/// Accepts an `IP:PORT` gossip listen address.
pub fn valid_listen_gossip(val: String) -> (r: Result<(), String>)
    ensures
        r is Ok <==> is_socket_addr(val@),
        r matches Err(m) ==> m@ == gossip_error(),
{
    match GossipListenAddr::from_str(val.as_str()) {
        Some(_) => Ok(()),
        None => Err(
            String::from_str(
                "Listen gossip address should include both IP and port, eg: '0.0.0.0:9700'",
            ),
        ),
    }
}

/// Accepts an `IP:PORT` HTTP listen address.
pub fn valid_listen_http(val: String) -> (r: Result<(), String>)
    ensures
        r is Ok <==> is_socket_addr(val@),
        r matches Err(m) ==> m@ == http_error(),
{
    match ListenAddr::from_str(val.as_str()) {
        Some(_) => Ok(()),
        None => Err(
            String::from_str(
                "Listen http address should include both IP and port, eg: '0.0.0.0:9700'",
            ),
        ),
    }
}

/// Accepts the name of an update strategy.
pub fn valid_update_strategy(val: String) -> (r: Result<(), String>)
    ensures
        r is Ok <==> update_strategy_of(val@) is Some,
        r matches Err(m) ==> m@ == strategy_error(val@),
{
    match UpdateStrategy::from_str(val.as_str()) {
        Some(_) => Ok(()),
        None => Err(framed("Update strategy: '", val.as_str(), "' is not valid")),
    }
}

/// The verdict on a `--url` value, given whether it parses as a URL.
pub fn url_verdict(parsed: bool, val: &str) -> (r: Result<(), String>)
    ensures
        r is Ok <==> parsed,
        r matches Err(m) ==> m@ == url_error(val@),
{
    if parsed {
        Ok(())
    } else {
        Err(framed("URL: '", val, "' is not valid"))
    }
}

/// Accepts a well-formed absolute URL.
pub fn valid_url(val: String) -> (r: Result<(), String>)
    ensures
        r is Ok <==> url_parses(val@),
        r matches Err(m) ==> m@ == url_error(val@),
{
    let parsed = url_parse_ok(val.as_str());
    url_verdict(parsed, val.as_str())
}

} // verus!
