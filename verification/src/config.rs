//! The client's configuration file: its fields, the value each field takes
//! when the file leaves it out, and what a failed load falls back to.
use vstd::prelude::*;

verus! {

/// A route that the system side of the tunnel sends through it.
pub struct Route {
    pub dest: String,
    pub gateway: String,
}

/// Everything the configuration file can set.
pub struct Config {
    /// UDP listen address (`IP:PORT`) that the local UDP peer talks to.
    pub local: String,
    /// Server address (`IP or HOST:PORT`).
    pub remote: String,
    /// Resolve and use IPv4 addresses only.
    pub ipv4_only: bool,
    /// IPv4 address of the system end of the tunnel device.
    pub tun_local: String,
    /// IPv4 address of the client end of the tunnel device.
    pub tun_peer: String,
    /// IPv6 address of the system end of the tunnel device.
    pub tun_local6: String,
    /// IPv6 address of the client end of the tunnel device.
    pub tun_peer6: String,
    /// Routes to add through the tunnel device.
    pub routes: Vec<Route>,
}

/// The fields that a parsed configuration document actually holds:
/// `None` where the document leaves the field out. `local` and `remote` are
/// required; the other fields are optional.
pub struct ConfigDocument {
    pub local: Option<String>,
    pub remote: Option<String>,
    pub ipv4_only: Option<bool>,
    pub tun_local: Option<String>,
    pub tun_peer: Option<String>,
    pub tun_local6: Option<String>,
    pub tun_peer6: Option<String>,
    pub routes: Option<Vec<Route>>,
}

impl Route {
    /// The arguments of the `ip` command that adds this route through the
    /// tunnel device `device`: `route add DEST via GATEWAY dev DEVICE`.
    pub fn add_command_args(&self, device: &str) -> (args: Vec<String>)
        ensures
            args@.len() == 7,
            args@[0]@ == "route"@,
            args@[1]@ == "add"@,
            args@[2]@ == self.dest@,
            args@[3]@ == "via"@,
            args@[4]@ == self.gateway@,
            args@[5]@ == "dev"@,
            args@[6]@ == device@,
    {
        let mut args: Vec<String> = Vec::new();
        args.push(String::from_str("route"));
        args.push(String::from_str("add"));
        args.push(self.dest.clone());
        args.push(String::from_str("via"));
        args.push(self.gateway.clone());
        args.push(String::from_str("dev"));
        args.push(String::from_str(device));
        args
    }
}

impl ConfigDocument {
    /// A document is valid when it holds both required fields, `local` and `remote`.
    pub open spec fn is_valid(&self) -> bool {
        self.local is Some && self.remote is Some
    }

    /// Whether the document holds both required fields.
    pub fn has_required_fields(&self) -> (b: bool)
        ensures
            b == self.is_valid(),
    {
        self.local.is_some() && self.remote.is_some()
    }
}

/// Name of the configuration file looked for in the working directory.
pub open spec fn spec_config_file_name() -> Seq<char> {
    "phantun-client.json"@
}

pub open spec fn spec_default_local() -> Seq<char> {
    "127.0.0.1:8080"@
}

pub open spec fn spec_default_remote() -> Seq<char> {
    "127.0.0.1:65000"@
}

pub open spec fn spec_default_tun_local() -> Seq<char> {
    "192.168.200.1"@
}

pub open spec fn spec_default_tun_peer() -> Seq<char> {
    "192.168.200.2"@
}

pub open spec fn spec_default_tun_local6() -> Seq<char> {
    "fcc8::1"@
}

pub open spec fn spec_default_tun_peer6() -> Seq<char> {
    "fcc8::2"@
}

/// Default listen address of the UDP side.
pub fn default_local() -> (s: String)
    ensures
        s@ == spec_default_local(),
{
    String::from_str("127.0.0.1:8080")
}

/// Default server address.
pub fn default_remote() -> (s: String)
    ensures
        s@ == spec_default_remote(),
{
    String::from_str("127.0.0.1:65000")
}

/// Default IPv4 address of the system end of the tunnel device.
pub fn default_tun_local() -> (s: String)
    ensures
        s@ == spec_default_tun_local(),
{
    String::from_str("192.168.200.1")
}

/// Default IPv4 address of the client end of the tunnel device.
pub fn default_tun_peer() -> (s: String)
    ensures
        s@ == spec_default_tun_peer(),
{
    String::from_str("192.168.200.2")
}

/// Default IPv6 address of the system end of the tunnel device.
pub fn default_tun_local6() -> (s: String)
    ensures
        s@ == spec_default_tun_local6(),
{
    String::from_str("fcc8::1")
}

/// Default IPv6 address of the client end of the tunnel device.
pub fn default_tun_peer6() -> (s: String)
    ensures
        s@ == spec_default_tun_peer6(),
{
    String::from_str("fcc8::2")
}

/// Name of the configuration file read when no path is given.
pub fn config_file_name() -> (s: String)
    ensures
        s@ == spec_config_file_name(),
{
    String::from_str("phantun-client.json")
}

impl Config {
    /// The configuration with every field at its default.
    pub open spec fn is_default(&self) -> bool {
        &&& self.local@ == spec_default_local()
        &&& self.remote@ == spec_default_remote()
        &&& !self.ipv4_only
        &&& self.tun_local@ == spec_default_tun_local()
        &&& self.tun_peer@ == spec_default_tun_peer()
        &&& self.tun_local6@ == spec_default_tun_local6()
        &&& self.tun_peer6@ == spec_default_tun_peer6()
        &&& self.routes@.len() == 0
    }

    /// The configuration that a valid document describes: each field the
    /// document holds, and the default of each optional field it leaves out.
    pub open spec fn describes(&self, doc: ConfigDocument) -> bool {
        &&& doc.is_valid()
        &&& self.local@ == doc.local->0@
        &&& self.remote@ == doc.remote->0@
        &&& self.ipv4_only == (match doc.ipv4_only {
            Some(b) => b,
            None => false,
        })
        &&& self.tun_local@ == (match doc.tun_local {
            Some(s) => s@,
            None => spec_default_tun_local(),
        })
        &&& self.tun_peer@ == (match doc.tun_peer {
            Some(s) => s@,
            None => spec_default_tun_peer(),
        })
        &&& self.tun_local6@ == (match doc.tun_local6 {
            Some(s) => s@,
            None => spec_default_tun_local6(),
        })
        &&& self.tun_peer6@ == (match doc.tun_peer6 {
            Some(s) => s@,
            None => spec_default_tun_peer6(),
        })
        &&& self.routes@ == (match doc.routes {
            Some(r) => r@,
            None => Seq::<Route>::empty(),
        })
    }

    /// The configuration a document describes: `None` when the document lacks
    /// a required field (`local` or `remote`); otherwise its fields, with the
    /// defaults of the optional fields it leaves out.
    pub fn from_document(doc: ConfigDocument) -> (r: Option<Config>)
        ensures
            r is Some <==> doc.is_valid(),
            r matches Some(c) ==> c.describes(doc),
            r matches Some(c) ==> c.local@ == doc.local->0@,
            r matches Some(c) ==> c.remote@ == doc.remote->0@,
            r matches Some(c) ==> (doc.ipv4_only matches Some(b) ==> c.ipv4_only == b),
            r matches Some(c) ==> (doc.ipv4_only is None ==> !c.ipv4_only),
            r matches Some(c) ==> (doc.tun_local matches Some(v) ==> c.tun_local@ == v@),
            r matches Some(c) ==> (doc.tun_local is None ==> c.tun_local@ == "192.168.200.1"@),
            r matches Some(c) ==> (doc.tun_peer matches Some(v) ==> c.tun_peer@ == v@),
            r matches Some(c) ==> (doc.tun_peer is None ==> c.tun_peer@ == "192.168.200.2"@),
            r matches Some(c) ==> (doc.tun_local6 matches Some(v) ==> c.tun_local6@ == v@),
            r matches Some(c) ==> (doc.tun_local6 is None ==> c.tun_local6@ == "fcc8::1"@),
            r matches Some(c) ==> (doc.tun_peer6 matches Some(v) ==> c.tun_peer6@ == v@),
            r matches Some(c) ==> (doc.tun_peer6 is None ==> c.tun_peer6@ == "fcc8::2"@),
            r matches Some(c) ==> (doc.routes matches Some(rs) ==> c.routes@ == rs@),
            r matches Some(c) ==> (doc.routes is None ==> c.routes@.len() == 0),
    {
        let local = match doc.local {
            Some(s) => s,
            None => return None,
        };
        let remote = match doc.remote {
            Some(s) => s,
            None => return None,
        };
        let ipv4_only = match doc.ipv4_only {
            Some(b) => b,
            None => false,
        };
        let tun_local = match doc.tun_local {
            Some(s) => s,
            None => default_tun_local(),
        };
        let tun_peer = match doc.tun_peer {
            Some(s) => s,
            None => default_tun_peer(),
        };
        let tun_local6 = match doc.tun_local6 {
            Some(s) => s,
            None => default_tun_local6(),
        };
        let tun_peer6 = match doc.tun_peer6 {
            Some(s) => s,
            None => default_tun_peer6(),
        };
        let routes = match doc.routes {
            Some(r) => r,
            None => Vec::new(),
        };
        Some(Config { local, remote, ipv4_only, tun_local, tun_peer, tun_local6, tun_peer6, routes })
    }

    /// The configuration in force after an attempt to load the file: the one
    /// the document describes when it was read, parsed and holds every
    /// required field; the default configuration when reading or parsing
    /// failed or a required field is missing.
    pub fn from_loaded(loaded: Option<ConfigDocument>) -> (c: Config)
        ensures
            match loaded {
                Some(doc) => if doc.is_valid() {
                    c.describes(doc)
                } else {
                    c.is_default()
                },
                None => c.is_default(),
            },
            loaded is Some && loaded->0.is_valid() ==> c.local@ == loaded->0.local->0@,
            loaded is Some && loaded->0.is_valid() ==> c.remote@ == loaded->0.remote->0@,
            loaded is Some && loaded->0.is_valid() ==> (loaded->0.ipv4_only matches Some(b) ==> c.ipv4_only == b),
            loaded is Some && loaded->0.is_valid() ==> (loaded->0.ipv4_only is None ==> !c.ipv4_only),
            loaded is Some && loaded->0.is_valid() ==> (loaded->0.tun_local matches Some(v) ==> c.tun_local@ == v@),
            loaded is Some && loaded->0.is_valid() ==> (loaded->0.tun_local is None ==> c.tun_local@ == "192.168.200.1"@),
            loaded is Some && loaded->0.is_valid() ==> (loaded->0.tun_peer matches Some(v) ==> c.tun_peer@ == v@),
            loaded is Some && loaded->0.is_valid() ==> (loaded->0.tun_peer is None ==> c.tun_peer@ == "192.168.200.2"@),
            loaded is Some && loaded->0.is_valid() ==> (loaded->0.tun_local6 matches Some(v) ==> c.tun_local6@ == v@),
            loaded is Some && loaded->0.is_valid() ==> (loaded->0.tun_local6 is None ==> c.tun_local6@ == "fcc8::1"@),
            loaded is Some && loaded->0.is_valid() ==> (loaded->0.tun_peer6 matches Some(v) ==> c.tun_peer6@ == v@),
            loaded is Some && loaded->0.is_valid() ==> (loaded->0.tun_peer6 is None ==> c.tun_peer6@ == "fcc8::2"@),
            loaded is Some && loaded->0.is_valid() ==> (loaded->0.routes matches Some(rs) ==> c.routes@ == rs@),
            loaded is Some && loaded->0.is_valid() ==> (loaded->0.routes is None ==> c.routes@.len() == 0),
            loaded is Some && !loaded->0.is_valid() ==> c.local@ == "127.0.0.1:8080"@ && c.remote@ == "127.0.0.1:65000"@,
            loaded is None ==> c.local@ == "127.0.0.1:8080"@ && c.remote@ == "127.0.0.1:65000"@,
    {
        match loaded {
            Some(doc) => match Config::from_document(doc) {
                Some(c) => c,
                None => Config::default(),
            },
            None => Config::default(),
        }
    }
}

impl Default for Config {
    fn default() -> (c: Config)
        ensures
            c.is_default(),
    {
        Config {
            local: default_local(),
            remote: default_remote(),
            ipv4_only: false,
            tun_local: default_tun_local(),
            tun_peer: default_tun_peer(),
            tun_local6: default_tun_local6(),
            tun_peer6: default_tun_peer6(),
            routes: Vec::new(),
        }
    }
}

/// A configuration that a document describes keeps every field the document
/// sets, and only a field the document leaves out takes its default.
pub proof fn lemma_document_fields_are_kept(c: Config, doc: ConfigDocument)
    requires
        c.describes(doc),
    ensures
        c.local@ == doc.local->0@,
        c.remote@ == doc.remote->0@,
        (doc.ipv4_only matches Some(b) ==> c.ipv4_only == b),
        (doc.ipv4_only is None ==> !c.ipv4_only),
        (doc.tun_local matches Some(v) ==> c.tun_local@ == v@),
        (doc.tun_local is None ==> c.tun_local@ == "192.168.200.1"@),
        (doc.tun_peer matches Some(v) ==> c.tun_peer@ == v@),
        (doc.tun_peer is None ==> c.tun_peer@ == "192.168.200.2"@),
        (doc.tun_local6 matches Some(v) ==> c.tun_local6@ == v@),
        (doc.tun_local6 is None ==> c.tun_local6@ == "fcc8::1"@),
        (doc.tun_peer6 matches Some(v) ==> c.tun_peer6@ == v@),
        (doc.tun_peer6 is None ==> c.tun_peer6@ == "fcc8::2"@),
        (doc.routes matches Some(rs) ==> c.routes@ == rs@),
        (doc.routes is None ==> c.routes@.len() == 0),
{
}

} // verus!
