//! The configuration a server runs with.

use vstd::prelude::*;
use vstd::string::StringExecFns;
use crate::text::{decimal_text, port_text, str_eq, text_set};

verus! {

/// How the server logs.
#[derive(Clone, Debug)]
pub struct Log {
    pub level: String,
    pub format: String,
}

/// The layout of a log line.
#[derive(Clone, Copy, Debug, PartialEq, Eq, Structural)]
pub enum LogFormat {
    Pretty,
    Compact,
    Full,
}

/// Where the server certificate and its key are stored.
#[derive(Clone, Debug)]
pub struct Tls {
    pub cert_file: String,
    pub key_file: String,
}

/// The addresses the server listens on.
#[derive(Clone, Debug)]
pub struct Server {
    pub http_host: String,
    pub quic_host: String,
    pub http_port: u16,
    pub quic_port: u16,
    pub tls: Option<Tls>,
}

/// Who may open a tunnel.
#[derive(Clone, Debug)]
pub struct AuthRules {
    pub enabled: bool,
    pub users: Vec<String>,
    pub host_domains: Vec<String>,
    pub default_allow_issuers: Vec<String>,
    pub jwt_key_endpoints: Vec<String>,
}

/// The rules of an [`AuthRules`] with its lists read as sets.
pub struct AuthPolicy {
    pub enabled: bool,
    pub users: Set<Seq<char>>,
    pub host_domains: Set<Seq<char>>,
    pub default_allow_issuers: Set<Seq<char>>,
    pub jwt_key_endpoints: Seq<Seq<char>>,
}

impl View for AuthRules {
    type V = AuthPolicy;

    open spec fn view(&self) -> AuthPolicy {
        AuthPolicy {
            enabled: self.enabled,
            users: text_set(self.users@),
            host_domains: text_set(self.host_domains@),
            default_allow_issuers: text_set(self.default_allow_issuers@),
            jwt_key_endpoints: self.jwt_key_endpoints@.map_values(|e: String| e@),
        }
    }
}

/// The environment a server runs in.
#[derive(Clone, Copy, Debug, PartialEq, Eq, Structural)]
pub enum ENV {
    Dev,
    Prod,
}

/// The environment a name selects: `Prod` selects production, every other
/// name development.
pub open spec fn env_of_name(name: Seq<char>) -> ENV {
    if name == "Prod"@ {
        ENV::Prod
    } else {
        ENV::Dev
    }
}

/// The log format a name selects: `pretty` and `compact` select themselves,
/// every other name the full format.
pub open spec fn log_format_of_name(name: Seq<char>) -> LogFormat {
    if name == "pretty"@ {
        LogFormat::Pretty
    } else if name == "compact"@ {
        LogFormat::Compact
    } else {
        LogFormat::Full
    }
}

impl ENV {
    /// Reads the environment from its name.
    pub fn from_name(env: &str) -> (e: ENV)
        ensures
            e == env_of_name(env@),
    {
        if str_eq(env, "Prod") {
            ENV::Prod
        } else {
            ENV::Dev
        }
    }
}

impl From<&str> for ENV {
    fn from(env: &str) -> (e: ENV) {
        ENV::from_name(env)
    }
}

impl vstd::std_specs::convert::FromSpecImpl<&str> for ENV {
    open spec fn obeys_from_spec() -> bool {
        true
    }

    open spec fn from_spec(env: &str) -> ENV {
        env_of_name(env@)
    }
}

impl Log {
    /// The layout of log lines that this configuration asks for.
    pub fn format_kind(&self) -> (kind: LogFormat)
        ensures
            kind == log_format_of_name(self.format@),
    {
        if str_eq(self.format.as_str(), "pretty") {
            LogFormat::Pretty
        } else if str_eq(self.format.as_str(), "compact") {
            LogFormat::Compact
        } else {
            LogFormat::Full
        }
    }
}

/// The whole configuration of a server.
#[derive(Clone, Debug)]
pub struct Settings {
    pub server: Server,
    pub auth: AuthRules,
    pub log: Log,
    pub env: ENV,
}

/// Where a server takes its certificate from.
#[derive(Clone, Debug)]
pub enum CertSource {
    /// Certificate chain and private key are read from PEM files.
    PemFiles { cert_file: String, key_file: String },
    /// A certificate for `localhost` is generated and signed by itself.
    SelfSigned,
}

/// A socket address as text: the host, a colon, and the port in decimal.
pub open spec fn socket_addr_text(host: Seq<char>, port: u16) -> Seq<char> {
    host + ":"@ + decimal_text(port as nat)
}

/// A socket address as text.
pub fn socket_addr(host: &str, port: u16) -> (addr: String)
    ensures
        addr@ == socket_addr_text(host@, port),
{
    let mut addr = String::from_str(host);
    addr.append(":");
    let digits = port_text(port);
    addr.append(digits.as_str());
    addr
}

impl Server {
    /// The address of the public HTTP front.
    pub fn http_addr(&self) -> (addr: String)
        ensures
            addr@ == socket_addr_text(self.http_host@, self.http_port),
    {
        socket_addr(self.http_host.as_str(), self.http_port)
    }

    /// The address of the QUIC listener.
    pub fn quic_addr(&self) -> (addr: String)
        ensures
            addr@ == socket_addr_text(self.quic_host@, self.quic_port),
    {
        socket_addr(self.quic_host.as_str(), self.quic_port)
    }
}

impl Settings {
    /// Whether the public front speaks TLS: it does in production.
    pub fn serves_tls(&self) -> (tls: bool)
        ensures
            tls == (self.env == ENV::Prod),
    {
        match self.env {
            ENV::Prod => true,
            ENV::Dev => false,
        }
    }

    /// Whether the configuration names what its environment needs: in
    /// production, the certificate files.
    pub open spec fn well_formed(&self) -> bool {
        self.env == ENV::Prod ==> self.server.tls is Some
    }

    /// Where the certificate comes from: from the configured files in
    /// production, generated in development.
    pub fn cert_source(&self) -> (source: CertSource)
        requires
            self.well_formed(),
        ensures
            self.env == ENV::Prod ==> (source matches CertSource::PemFiles { cert_file, key_file }
                && cert_file@ == self.server.tls.unwrap().cert_file@ && key_file@
                == self.server.tls.unwrap().key_file@),
            self.env == ENV::Dev ==> source is SelfSigned,
    {
        match self.env {
            ENV::Prod => {
                match &self.server.tls {
                    Some(tls) => CertSource::PemFiles {
                        cert_file: tls.cert_file.clone(),
                        key_file: tls.key_file.clone(),
                    },
                    None => CertSource::SelfSigned,
                }
            },
            ENV::Dev => CertSource::SelfSigned,
        }
    }

    /// Whether anyone is let in: authentication is switched off.
    pub fn open_to_all(&self) -> (open: bool)
        ensures
            open == !self.auth.enabled,
    {
        !self.auth.enabled
    }
}

} // verus!
