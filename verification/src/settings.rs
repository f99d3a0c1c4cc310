//! Merging the command line over the configuration file.
use vstd::prelude::*;
use crate::config::{Config, Route, config_file_name, spec_config_file_name};
use crate::address::{SocketAddress, spec_first_acceptable, lemma_ipv4_only_selects_ipv4};

verus! {

/// What the command line sets; `None` (or `false`) where an option is absent.
pub struct CommandLine {
    /// `-c/--config PATH`
    pub config: Option<String>,
    /// `-l/--local IP:PORT`
    pub local: Option<String>,
    /// `-r/--remote HOST:PORT`
    pub remote: Option<String>,
    /// `-4/--ipv4-only`
    pub ipv4_only: bool,
    /// `--tun-local IP`
    pub tun_local: Option<String>,
    /// `--tun-peer IP`
    pub tun_peer: Option<String>,
}

/// The settings the client runs with, as text still to be parsed into addresses.
pub struct Settings {
    pub local: String,
    pub remote: String,
    pub ipv4_only: bool,
    pub tun_local: String,
    pub tun_peer: String,
    /// The IPv6 addresses of the tunnel device's two ends; absent when only IPv4 is used.
    pub tun6: Option<(String, String)>,
    /// Routes to add through the tunnel device.
    pub routes: Vec<Route>,
}

/// The option's value where the command line gives one, else the configured one.
pub open spec fn spec_override(cli: Option<String>, configured: String) -> Seq<char> {
    match cli {
        Some(s) => s@,
        None => configured@,
    }
}

/// The file to take the configuration from: the one given with `-c`, else the default file.
pub fn config_path(cli: &CommandLine) -> (path: String)
    ensures
        path@ == (match cli.config {
            Some(p) => p@,
            None => spec_config_file_name(),
        }),
{
    match &cli.config {
        Some(p) => p.clone(),
        None => config_file_name(),
    }
}

impl Settings {
    /// Every option given on the command line wins over the configuration file;
    /// IPv4-only mode is on when the command line, the file, or the platform
    /// (`ipv4_platform`: a platform that supports IPv4 only) turns it on.
    pub open spec fn merges(&self, config: Config, cli: CommandLine, ipv4_platform: bool) -> bool {
        &&& self.local@ == spec_override(cli.local, config.local)
        &&& self.remote@ == spec_override(cli.remote, config.remote)
        &&& self.ipv4_only == (cli.ipv4_only || config.ipv4_only || ipv4_platform)
        &&& self.routes@ == config.routes@
        &&& self.tun_local@ == spec_override(cli.tun_local, config.tun_local)
        &&& self.tun_peer@ == spec_override(cli.tun_peer, config.tun_peer)
        &&& (match self.tun6 {
            None => self.ipv4_only,
            Some((l, p)) => !self.ipv4_only && l@ == config.tun_local6@ && p@ == config.tun_peer6@,
        })
    }

    /// Lays the command line over the configuration. `ipv4_platform` is true
    /// on a platform where only IPv4 is supported, which forces IPv4-only mode.
    pub fn resolve(config: Config, cli: CommandLine, ipv4_platform: bool) -> (s: Settings)
        ensures
            s.merges(config, cli, ipv4_platform),
            cli.local matches Some(v) ==> s.local@ == v@,
            cli.local is None ==> s.local@ == config.local@,
            cli.remote matches Some(v) ==> s.remote@ == v@,
            cli.remote is None ==> s.remote@ == config.remote@,
            cli.tun_local matches Some(v) ==> s.tun_local@ == v@,
            cli.tun_local is None ==> s.tun_local@ == config.tun_local@,
            cli.tun_peer matches Some(v) ==> s.tun_peer@ == v@,
            cli.tun_peer is None ==> s.tun_peer@ == config.tun_peer@,
            s.ipv4_only == (cli.ipv4_only || config.ipv4_only || ipv4_platform),
    {
        let Config { local, remote, ipv4_only, tun_local, tun_peer, tun_local6, tun_peer6, routes } =
            config;
        let local = match cli.local {
            Some(s) => s,
            None => local,
        };
        let remote = match cli.remote {
            Some(s) => s,
            None => remote,
        };
        let ipv4_only = cli.ipv4_only || ipv4_only || ipv4_platform;
        let tun_local = match cli.tun_local {
            Some(s) => s,
            None => tun_local,
        };
        let tun_peer = match cli.tun_peer {
            Some(s) => s,
            None => tun_peer,
        };
        let tun6 = if ipv4_only {
            None
        } else {
            Some((tun_local6, tun_peer6))
        };
        Settings { local, remote, ipv4_only, tun_local, tun_peer, tun6, routes }
    }
}

/// Each option given on the command line is the value in force; an option it
/// leaves out takes the file's value. IPv4-only mode is on exactly when one of
/// the three sources turns it on.
pub proof fn lemma_command_line_wins(settings: Settings, config: Config, cli: CommandLine, ipv4_platform: bool)
    requires
        settings.merges(config, cli, ipv4_platform),
    ensures
        cli.local matches Some(v) ==> settings.local@ == v@,
        cli.local is None ==> settings.local@ == config.local@,
        cli.remote matches Some(v) ==> settings.remote@ == v@,
        cli.remote is None ==> settings.remote@ == config.remote@,
        cli.tun_local matches Some(v) ==> settings.tun_local@ == v@,
        cli.tun_local is None ==> settings.tun_local@ == config.tun_local@,
        cli.tun_peer matches Some(v) ==> settings.tun_peer@ == v@,
        cli.tun_peer is None ==> settings.tun_peer@ == config.tun_peer@,
        settings.ipv4_only <==> (cli.ipv4_only || config.ipv4_only || ipv4_platform),
{
}

/// The tunnel's IPv6 addresses are there whenever the chosen server address is
/// an IPv6 one: IPv4-only mode, which leaves them out, never chooses one.
pub proof fn lemma_ipv6_server_has_tunnel_addresses(
    settings: Settings,
    config: Config,
    cli: CommandLine,
    ipv4_platform: bool,
    candidates: Seq<SocketAddress>,
)
    requires
        settings.merges(config, cli, ipv4_platform),
        spec_first_acceptable(candidates, settings.ipv4_only) matches Some(a) && !a.is_ipv4(),
    ensures
        settings.tun6 is Some,
{
    lemma_ipv4_only_selects_ipv4(candidates);
}

/// On a platform that supports IPv4 only, the chosen server address is an
/// IPv4 one, whatever the file and the command line say.
pub proof fn lemma_ipv4_platform_selects_ipv4(
    settings: Settings,
    config: Config,
    cli: CommandLine,
    candidates: Seq<SocketAddress>,
)
    requires
        settings.merges(config, cli, true),
    ensures
        spec_first_acceptable(candidates, settings.ipv4_only) matches Some(a) ==> a.is_ipv4(),
        settings.tun6 is None,
{
    lemma_ipv4_only_selects_ipv4(candidates);
}

} // verus!
