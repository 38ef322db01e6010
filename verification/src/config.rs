//! What the server is configured with, and what follows from it.

use vstd::prelude::*;
use vstd::string::StringExecFns;
use crate::text::{all_digits, decimal, decimal_reads_back, decimal_text, is_digit, is_numeral_of};

verus! {

/// How long an idle connection to a worker is kept, in seconds.
pub const POOL_IDLE_TIMEOUT_SECS: u64 = 50;

/// The configuration of the worker router. `W` says which workers there are and how requests are
/// spread over them; the server hands it on unread.
#[derive(Debug)]
pub struct RouterConfig<W> {
    pub workers: W,
    pub max_concurrent_requests: usize,
    pub cors_allowed_origins: Vec<String>,
}

/// Whether workers are looked for while the server runs, and with what settings.
#[derive(Debug)]
pub struct ServiceDiscoveryConfig<D> {
    pub enabled: bool,
    pub settings: D,
}

/// The configuration of the server. `W`, `D` and `M` are the settings of the worker router, of
/// service discovery and of the metrics exporter, which the server hands on unread.
#[derive(Debug)]
pub struct ServerConfig<W, D, M> {
    pub host: String,
    pub port: u16,
    pub router_config: RouterConfig<W>,
    pub max_payload_size: usize,
    pub log_dir: Option<String>,
    pub log_level: Option<String>,
    pub service_discovery_config: Option<ServiceDiscoveryConfig<D>>,
    pub prometheus_config: Option<M>,
    pub request_timeout_secs: u64,
    pub request_id_headers: Option<Vec<String>>,
}

/// The timeouts of the HTTP client that talks to the workers.
#[derive(Clone, Copy, Debug, PartialEq, Eq, Structural)]
pub struct ClientSettings {
    pub pool_idle_timeout_secs: u64,
    pub timeout_secs: u64,
}

/// The headers that are searched for a request ID where the configuration names none.
pub open spec fn default_request_id_headers() -> Seq<Seq<char>> {
    seq!["x-request-id"@, "x-correlation-id"@, "x-trace-id"@, "request-id"@]
}

/// The whole mebibytes in a number of bytes.
pub open spec fn whole_mebibytes(bytes: nat) -> nat {
    bytes / 1_048_576
}

/// The text of a socket address.
pub open spec fn address(host: Seq<char>, port: u16) -> Seq<char> {
    host + seq![':'] + decimal(port as nat)
}

impl<W, D, M> ServerConfig<W, D, M> {
    /// The headers that are searched for a request ID.
    pub open spec fn id_headers(self) -> Seq<Seq<char>> {
        match self.request_id_headers {
            Some(headers) => headers.deep_view(),
            None => default_request_id_headers(),
        }
    }

    /// The timeouts of the HTTP client.
    pub open spec fn client(self) -> ClientSettings {
        ClientSettings {
            pool_idle_timeout_secs: POOL_IDLE_TIMEOUT_SECS,
            timeout_secs: self.request_timeout_secs,
        }
    }

    /// Whether the exporter of metrics is to be started.
    pub open spec fn has_metrics(self) -> bool {
        self.prometheus_config is Some
    }

    /// Whether service discovery is to be started.
    pub open spec fn has_discovery(self) -> bool {
        self.service_discovery_config matches Some(discovery) && discovery.enabled
    }

    /// The headers that are searched for a request ID: those of the configuration, or else the
    /// usual ones.
    pub fn request_id_headers(&self) -> (r: Vec<String>)
        ensures
            r.deep_view() == self.id_headers(),
            match self.request_id_headers {
                Some(headers) => r.deep_view() == headers.deep_view(),
                None => {
                    &&& r@.len() == 4
                    &&& r@[0]@ == "x-request-id"@
                    &&& r@[1]@ == "x-correlation-id"@
                    &&& r@[2]@ == "x-trace-id"@
                    &&& r@[3]@ == "request-id"@
                },
            },
    {
        match &self.request_id_headers {
            Some(headers) => headers.clone(),
            None => {
                let headers = vec![
                    "x-request-id".to_owned(),
                    "x-correlation-id".to_owned(),
                    "x-trace-id".to_owned(),
                    "request-id".to_owned(),
                ];
                proof {
                    assert(headers.deep_view() =~= default_request_id_headers());
                }
                headers
            },
        }
    }

    /// The address to listen on.
    pub fn bind_address(&self) -> (r: String)
        ensures
            r@ == address(self.host@, self.port),
            r@.len() > self.host@.len() + 1,
            r@.take(self.host@.len() as int) == self.host@,
            r@[self.host@.len() as int] == ':',
            is_numeral_of(r@.skip(self.host@.len() as int + 1), self.port as nat),
    {
        proof {
            address_parts(self.host@, self.port);
            reveal_strlit(":");
            assert(":"@ =~= seq![':']);
        }
        self.host.clone().concat(":").concat(decimal_text(self.port).as_str())
    }

    /// The timeouts of the HTTP client that talks to the workers.
    pub fn client_settings(&self) -> (r: ClientSettings)
        ensures
            r == self.client(),
            r.pool_idle_timeout_secs == 50,
            r.timeout_secs == self.request_timeout_secs,
    {
        ClientSettings {
            pool_idle_timeout_secs: POOL_IDLE_TIMEOUT_SECS,
            timeout_secs: self.request_timeout_secs,
        }
    }

    /// The number of requests that may be under way at once.
    pub fn concurrency_limit(&self) -> (r: usize)
        ensures
            r == self.router_config.max_concurrent_requests,
    {
        self.router_config.max_concurrent_requests
    }

    /// The largest request body that is taken, in whole mebibytes.
    pub fn max_payload_mebibytes(&self) -> (r: usize)
        ensures
            r == self.max_payload_size as int / 1_048_576,
            r == whole_mebibytes(self.max_payload_size as nat),
    {
        self.max_payload_size / (1024 * 1024)
    }
}

/// An address is the host, a colon and the numeral of the port.
pub proof fn address_parts(host: Seq<char>, port: u16)
    ensures
        address(host, port).len() > host.len() + 1,
        address(host, port).take(host.len() as int) == host,
        address(host, port)[host.len() as int] == ':',
        is_numeral_of(address(host, port).skip(host.len() as int + 1), port as nat),
{
    decimal_reads_back(port as nat);
    assert(address(host, port).take(host.len() as int) =~= host);
    assert(address(host, port).skip(host.len() as int + 1) =~= decimal(port as nat));
}

proof fn digits_after_colon(x: Seq<char>, d: Seq<char>, y: Seq<char>, e: Seq<char>)
    requires
        x + seq![':'] + d == y + seq![':'] + e,
        all_digits(d),
        all_digits(e),
    ensures
        x == y,
        d == e,
{
    let left = x + seq![':'] + d;
    let right = y + seq![':'] + e;
    assert(left.len() == right.len());
    if x.len() < y.len() {
        let i = y.len() - x.len() - 1;
        assert(right[y.len() as int] == ':');
        assert(left[x.len() + 1 + i] == d[i]);
        assert(is_digit(d[i]));
    } else if y.len() < x.len() {
        let i = x.len() - y.len() - 1;
        assert(left[x.len() as int] == ':');
        assert(right[y.len() + 1 + i] == e[i]);
        assert(is_digit(e[i]));
    } else {
        assert(x =~= left.take(x.len() as int));
        assert(y =~= right.take(x.len() as int));
        assert(d =~= left.skip(x.len() as int + 1));
        assert(e =~= right.skip(x.len() as int + 1));
    }
}

/// An address says which host and which port it was made of.
pub proof fn address_is_unambiguous(
    host: Seq<char>,
    port: u16,
    other_host: Seq<char>,
    other_port: u16,
)
    requires
        address(host, port) == address(other_host, other_port),
    ensures
        host == other_host,
        port == other_port,
{
    decimal_reads_back(port as nat);
    decimal_reads_back(other_port as nat);
    digits_after_colon(host, decimal(port as nat), other_host, decimal(other_port as nat));
}

} // verus!
