//! Server configuration: host, port and worker count, built once at startup
//! from the raw environment values, with defaults for anything unset or
//! unparsable.

use vstd::prelude::*;
use vstd::string::StringExecFns;
use crate::text::{dec_rep, spec_parse_u64, parse_u64, u64_to_string};

verus! {

/// The port used when `PORT` is unset or unparsable.
pub fn default_port() -> (r: u16)
    ensures
        r == 1337,
{
    1337
}

/// The bind host used when `HOST` is unset.
pub fn default_host() -> (r: String)
    ensures
        r@ == "0.0.0.0"@,
{
    String::from_str("0.0.0.0")
}

/// The worker count used when `POOL_SIZE` is unset or unparsable.
pub fn default_pool_size() -> (r: usize)
    ensures
        r == 4,
{
    4
}

/// The view of an optional raw environment value.
pub open spec fn opt_view(o: Option<String>) -> Option<Seq<char>> {
    match o {
        None => None,
        Some(s) => Some(s@),
    }
}

/// What the host setting becomes: the raw value when one is present, the
/// default otherwise.
pub open spec fn spec_host_of(v: Option<Seq<char>>) -> Seq<char> {
    match v {
        None => "0.0.0.0"@,
        Some(s) => s,
    }
}

/// What the port setting becomes: the parsed value when the raw value is a
/// decimal numeral that fits in a `u16`, the default otherwise.
pub open spec fn spec_port_of(v: Option<Seq<char>>) -> u16 {
    match v {
        None => 1337,
        Some(s) => match spec_parse_u64(s) {
            Some(n) => if n <= u16::MAX { n as u16 } else { 1337 },
            None => 1337,
        },
    }
}

/// What the worker count becomes: the parsed value when the raw value is a
/// decimal numeral that is positive and fits in a `usize`, the default
/// otherwise. A count of zero could start no workers, so it falls back too.
pub open spec fn spec_pool_size_of(v: Option<Seq<char>>) -> usize {
    match v {
        None => 4,
        Some(s) => match spec_parse_u64(s) {
            Some(n) => if 1 <= n <= usize::MAX { n as usize } else { 4 },
            None => 4,
        },
    }
}

/// The settings the server runs with. Immutable after construction.
pub struct Config {
    host: String,
    port: u16,
    pool_size: usize,
}

impl Config {
    /// The configured bind host.
    pub closed spec fn spec_host(&self) -> Seq<char> {
        self.host@
    }

    /// The configured listen port.
    pub closed spec fn spec_port(&self) -> u16 {
        self.port
    }

    /// The configured worker count.
    pub closed spec fn spec_pool_size(&self) -> usize {
        self.pool_size
    }

    /// A usable configuration always has at least one worker.
    pub open spec fn wf(&self) -> bool {
        self.spec_pool_size() >= 1
    }

    /// Builds the configuration from the raw values of the `HOST`, `PORT` and
    /// `POOL_SIZE` environment variables, absent ones given as `None`.
    /// Anything unset or unparsable falls back to its default.
    pub fn from_env_values(host: Option<String>, port: Option<String>, pool_size: Option<String>)
        -> (r: Config)
        ensures
            r.spec_host() == spec_host_of(opt_view(host)),
            r.spec_port() == spec_port_of(opt_view(port)),
            r.spec_pool_size() == spec_pool_size_of(opt_view(pool_size)),
            r.wf(),
    {
        let host_val = match host {
            None => default_host(),
            Some(h) => h,
        };
        let port_val = match port {
            None => default_port(),
            Some(p) => match parse_u64(p.as_str()) {
                Some(n) => if n <= 65535 { n as u16 } else { default_port() },
                None => default_port(),
            },
        };
        let pool_val = match pool_size {
            None => default_pool_size(),
            Some(p) => match parse_u64(p.as_str()) {
                Some(n) => if 1 <= n && n <= usize::MAX as u64 { n as usize } else {
                    default_pool_size()
                },
                None => default_pool_size(),
            },
        };
        Config { host: host_val, port: port_val, pool_size: pool_val }
    }

    /// The address the listener binds, `host:port` with the port in decimal.
    pub fn addr(&self) -> (r: String)
        ensures
            r@ == self.spec_host() + ":"@ + dec_rep(self.spec_port() as nat),
    {
        let head = self.host.clone().concat(":");
        let port = u64_to_string(self.port as u64);
        head.concat(port.as_str())
    }

    /// The banner the server prints once it listens: the bound address and
    /// the pool size.
    pub fn startup_banner(&self) -> (r: String)
        ensures
            r@ == "Listening on "@ + self.spec_host() + ":"@ + dec_rep(self.spec_port() as nat)
                + ", pool size: "@ + dec_rep(self.spec_pool_size() as nat),
    {
        let addr = self.addr();
        let r = String::from_str("Listening on ").concat(addr.as_str()).concat(
            ", pool size: ",
        ).concat(u64_to_string(self.pool_size as u64).as_str());
        proof {
            assert(r@ =~= "Listening on "@ + self.spec_host() + ":"@ + dec_rep(
                self.spec_port() as nat,
            ) + ", pool size: "@ + dec_rep(self.spec_pool_size() as nat));
        }
        r
    }

    /// The hint the server prints under the banner: the address as a link.
    pub fn browser_hint(&self) -> (r: String)
        ensures
            r@ == "Click http://"@ + self.spec_host() + ":"@ + dec_rep(self.spec_port() as nat)
                + "/ to open it in the browser"@,
    {
        let addr = self.addr();
        let r = String::from_str("Click http://").concat(addr.as_str()).concat(
            "/ to open it in the browser",
        );
        proof {
            assert(r@ =~= "Click http://"@ + self.spec_host() + ":"@ + dec_rep(
                self.spec_port() as nat,
            ) + "/ to open it in the browser"@);
        }
        r
    }

    /// The configured bind host.
    pub fn host(&self) -> (r: &str)
        ensures
            r@ == self.spec_host(),
    {
        self.host.as_str()
    }

    /// The configured listen port.
    pub fn port(&self) -> (r: u16)
        ensures
            r == self.spec_port(),
    {
        self.port
    }

    /// The configured worker count.
    pub fn pool_size(&self) -> (r: usize)
        ensures
            r == self.spec_pool_size(),
    {
        self.pool_size
    }
}

} // verus!
