//! The options of the `start` command: what each is called, what it takes,
//! which check gates it, and how it relates to the others.
use vstd::prelude::*;
use crate::service::same_text;

verus! {

/// The options of `start`, in the order in which they are declared.
#[derive(Clone, Copy, Debug, PartialEq, Eq, Structural)]
pub enum OptKey {
    ListenGossip,
    ListenHttp,
    Name,
    Organization,
    Peer,
    PermanentPeer,
    PeerWatchFile,
    Ring,
    PkgIdentOrArtifact,
    Application,
    Environment,
    Channel,
    Group,
    BldrUrl,
    Topology,
    Strategy,
    Bind,
    ConfigDir,
    AutoUpdate,
    Events,
    Password,
}

/// What an option takes on the command line.
#[derive(Clone, Copy, Debug, PartialEq, Eq, Structural)]
pub enum Arity {
    /// present or not, with no value
    Flag,
    /// one value
    Single,
    /// any number of values, kept in the order given
    Multiple,
    /// one value given by position rather than by flag
    Positional,
}

/// The check that gates an option's value.
#[derive(Clone, Copy, Debug, PartialEq, Eq, Structural)]
pub enum Check {
    DirExists,
    ServiceGroup,
    Topology,
    ListenGossip,
    ListenHttp,
    UpdateStrategy,
    Url,
}

/// A target operating system other than Linux, macOS and Windows.
#[derive(Clone, Debug)]
pub struct UnsupportedPlatform {
    pub os: String,
}

pub open spec fn spec_arity(k: OptKey) -> Arity {
    match k {
        OptKey::PermanentPeer | OptKey::AutoUpdate => Arity::Flag,
        OptKey::Peer | OptKey::Bind => Arity::Multiple,
        OptKey::PkgIdentOrArtifact => Arity::Positional,
        _ => Arity::Single,
    }
}

pub open spec fn spec_check(k: OptKey) -> Option<Check> {
    match k {
        OptKey::ListenGossip => Some(Check::ListenGossip),
        OptKey::ListenHttp => Some(Check::ListenHttp),
        OptKey::BldrUrl => Some(Check::Url),
        OptKey::Topology => Some(Check::Topology),
        OptKey::Strategy => Some(Check::UpdateStrategy),
        OptKey::ConfigDir => Some(Check::DirExists),
        OptKey::Events => Some(Check::ServiceGroup),
        _ => None,
    }
}

pub open spec fn spec_depends_on(k: OptKey) -> Option<OptKey> {
    match k {
        OptKey::Application => Some(OptKey::Environment),
        OptKey::Environment => Some(OptKey::Application),
        _ => None,
    }
}

pub open spec fn spec_conflicts_with(k: OptKey) -> Option<OptKey> {
    match k {
        OptKey::PeerWatchFile => Some(OptKey::Peer),
        _ => None,
    }
}

pub open spec fn spec_default(k: OptKey) -> Option<Seq<char>> {
    match k {
        OptKey::ListenGossip => Some("0.0.0.0:9638"@),
        OptKey::ListenHttp => Some("0.0.0.0:9631"@),
        OptKey::Name => Some("default"@),
        OptKey::Organization => Some("default"@),
        OptKey::Channel => Some("stable"@),
        OptKey::Group => Some("default"@),
        OptKey::BldrUrl => Some("https://bldr.habitat.sh"@),
        OptKey::Topology => Some("none"@),
        OptKey::Strategy => Some("none"@),
        _ => None,
    }
}

pub open spec fn spec_long(k: OptKey) -> Option<Seq<char>> {
    match k {
        OptKey::ListenGossip => Some("listen-gossip"@),
        OptKey::ListenHttp => Some("listen-http"@),
        OptKey::Name => Some("override-name"@),
        OptKey::Organization => Some("org"@),
        OptKey::Peer => Some("peer"@),
        OptKey::PermanentPeer => Some("permanent-peer"@),
        OptKey::PeerWatchFile => Some("peer-watch-file"@),
        OptKey::Ring => Some("ring"@),
        OptKey::Application => Some("application"@),
        OptKey::Environment => Some("environment"@),
        OptKey::Channel => Some("channel"@),
        OptKey::Group => Some("group"@),
        OptKey::BldrUrl => Some("url"@),
        OptKey::Topology => Some("topology"@),
        OptKey::Strategy => Some("strategy"@),
        OptKey::Bind => Some("bind"@),
        OptKey::ConfigDir => Some("config-from"@),
        OptKey::AutoUpdate => Some("auto-update"@),
        OptKey::Events => Some("events"@),
        OptKey::Password => Some("password"@),
        OptKey::PkgIdentOrArtifact => None,
    }
}

pub open spec fn spec_short(k: OptKey) -> Option<char> {
    match k {
        OptKey::PermanentPeer => Some('I'),
        OptKey::Ring => Some('r'),
        OptKey::Application => Some('a'),
        OptKey::Environment => Some('e'),
        OptKey::BldrUrl => Some('u'),
        OptKey::Topology => Some('t'),
        OptKey::Strategy => Some('s'),
        OptKey::AutoUpdate => Some('A'),
        OptKey::Events => Some('n'),
        _ => None,
    }
}

/// The options that every platform has, in declaration order.
pub open spec fn base_options() -> Seq<OptKey> {
    seq![
        OptKey::ListenGossip,
        OptKey::ListenHttp,
        OptKey::Name,
        OptKey::Organization,
        OptKey::Peer,
        OptKey::PermanentPeer,
        OptKey::PeerWatchFile,
        OptKey::Ring,
        OptKey::PkgIdentOrArtifact,
        OptKey::Application,
        OptKey::Environment,
        OptKey::Channel,
        OptKey::Group,
        OptKey::BldrUrl,
        OptKey::Topology,
        OptKey::Strategy,
        OptKey::Bind,
        OptKey::ConfigDir,
        OptKey::AutoUpdate,
        OptKey::Events,
    ]
}

pub open spec fn is_posix_family(os: Seq<char>) -> bool {
    os == "linux"@ || os == "macos"@
}

pub open spec fn is_windows(os: Seq<char>) -> bool {
    os == "windows"@
}

impl OptKey {
    /// The long flag, without its leading dashes; the positional argument
    /// has none.
    pub fn long_flag(&self) -> (r: Option<&'static str>)
        ensures
            r matches Some(l) ==> spec_long(*self) == Some(l@),
            r is None <==> spec_long(*self) is None,
    {
        match self {
            OptKey::ListenGossip => Some("listen-gossip"),
            OptKey::ListenHttp => Some("listen-http"),
            OptKey::Name => Some("override-name"),
            OptKey::Organization => Some("org"),
            OptKey::Peer => Some("peer"),
            OptKey::PermanentPeer => Some("permanent-peer"),
            OptKey::PeerWatchFile => Some("peer-watch-file"),
            OptKey::Ring => Some("ring"),
            OptKey::Application => Some("application"),
            OptKey::Environment => Some("environment"),
            OptKey::Channel => Some("channel"),
            OptKey::Group => Some("group"),
            OptKey::BldrUrl => Some("url"),
            OptKey::Topology => Some("topology"),
            OptKey::Strategy => Some("strategy"),
            OptKey::Bind => Some("bind"),
            OptKey::ConfigDir => Some("config-from"),
            OptKey::AutoUpdate => Some("auto-update"),
            OptKey::Events => Some("events"),
            OptKey::Password => Some("password"),
            OptKey::PkgIdentOrArtifact => None,
        }
    }

    /// The one-letter flag, if the option has one.
    pub fn short_flag(&self) -> (r: Option<char>)
        ensures
            r == spec_short(*self),
    {
        match self {
            OptKey::PermanentPeer => Some('I'),
            OptKey::Ring => Some('r'),
            OptKey::Application => Some('a'),
            OptKey::Environment => Some('e'),
            OptKey::BldrUrl => Some('u'),
            OptKey::Topology => Some('t'),
            OptKey::Strategy => Some('s'),
            OptKey::AutoUpdate => Some('A'),
            OptKey::Events => Some('n'),
            _ => None,
        }
    }

    /// What the option takes on the command line.
    pub fn arity(&self) -> (r: Arity)
        ensures
            r == spec_arity(*self),
    {
        match self {
            OptKey::PermanentPeer | OptKey::AutoUpdate => Arity::Flag,
            OptKey::Peer | OptKey::Bind => Arity::Multiple,
            OptKey::PkgIdentOrArtifact => Arity::Positional,
            _ => Arity::Single,
        }
    }

    /// The check that gates the option's value, if any.
    pub fn check(&self) -> (r: Option<Check>)
        ensures
            r == spec_check(*self),
    {
        match self {
            OptKey::ListenGossip => Some(Check::ListenGossip),
            OptKey::ListenHttp => Some(Check::ListenHttp),
            OptKey::BldrUrl => Some(Check::Url),
            OptKey::Topology => Some(Check::Topology),
            OptKey::Strategy => Some(Check::UpdateStrategy),
            OptKey::ConfigDir => Some(Check::DirExists),
            OptKey::Events => Some(Check::ServiceGroup),
            _ => None,
        }
    }

    /// The option that must be given together with this one, if any.
    pub fn depends_on(&self) -> (r: Option<OptKey>)
        ensures
            r == spec_depends_on(*self),
    {
        match self {
            OptKey::Application => Some(OptKey::Environment),
            OptKey::Environment => Some(OptKey::Application),
            _ => None,
        }
    }

    /// The option that must not be given together with this one, if any.
    pub fn conflicts_with(&self) -> (r: Option<OptKey>)
        ensures
            r == spec_conflicts_with(*self),
    {
        match self {
            OptKey::PeerWatchFile => Some(OptKey::Peer),
            _ => None,
        }
    }

    /// The value the option stands for when it is not given, if any.
    pub fn default_value(&self) -> (r: Option<&'static str>)
        ensures
            r matches Some(d) ==> spec_default(*self) == Some(d@),
            r is None <==> spec_default(*self) is None,
    {
        match self {
            OptKey::ListenGossip => Some("0.0.0.0:9638"),
            OptKey::ListenHttp => Some("0.0.0.0:9631"),
            OptKey::Name => Some("default"),
            OptKey::Organization => Some("default"),
            OptKey::Channel => Some("stable"),
            OptKey::Group => Some("default"),
            OptKey::BldrUrl => Some("https://bldr.habitat.sh"),
            OptKey::Topology => Some("none"),
            OptKey::Strategy => Some("none"),
            _ => None,
        }
    }
}

/// The options of the `start` command on the operating system named `os`
/// (as Rust names it): the base options on Linux and macOS, and those with
/// `--password` added on Windows. Any other system is refused.
pub fn start(os: &str) -> (r: Result<Vec<OptKey>, UnsupportedPlatform>)
    ensures
        is_posix_family(os@) ==> (r matches Ok(v) && v@ == base_options()),
        is_windows(os@) ==> (r matches Ok(v) && v@ == base_options().push(OptKey::Password)),
        !is_posix_family(os@) && !is_windows(os@) ==> (r matches Err(e) && e.os@ == os@),
{
    let base = vec![
        OptKey::ListenGossip,
        OptKey::ListenHttp,
        OptKey::Name,
        OptKey::Organization,
        OptKey::Peer,
        OptKey::PermanentPeer,
        OptKey::PeerWatchFile,
        OptKey::Ring,
        OptKey::PkgIdentOrArtifact,
        OptKey::Application,
        OptKey::Environment,
        OptKey::Channel,
        OptKey::Group,
        OptKey::BldrUrl,
        OptKey::Topology,
        OptKey::Strategy,
        OptKey::Bind,
        OptKey::ConfigDir,
        OptKey::AutoUpdate,
        OptKey::Events,
    ];
    assert(base@ =~= base_options());
    proof {
        reveal_strlit("linux");
        reveal_strlit("macos");
        reveal_strlit("windows");
        assert("windows"@.len() != "linux"@.len() && "windows"@.len() != "macos"@.len());
    }
    if same_text(os, "linux") || same_text(os, "macos") {
        Ok(base)
    } else if same_text(os, "windows") {
        let mut all = base;
        all.push(OptKey::Password);
        Ok(all)
    } else {
        Err(UnsupportedPlatform { os: os.to_owned() })
    }
}


} // verus!
