use vstd::prelude::*;
use vstd::string::StringExecFns;
use crate::configuration::{host_port, Config};
use crate::lifecycle::Lifecycle;
use crate::text::push_decimal;

verus! {

/// Creates services from bound sockets.
pub struct Application {}

/// A service whose socket is bound: the address is the one the socket reported.
pub struct AppService {
    /// The bound IP address, as text.
    pub host: String,
    /// The bound port.
    pub port: u16,
    /// Where the service stands between start and shutdown.
    pub lifecycle: Lifecycle,
}

/// Why a bound socket is not accepted as the service's.
#[derive(Clone, Copy, PartialEq, Eq, Structural, Debug)]
pub enum StartError {
    /// The socket is bound to another port than the one asked for.
    PortMismatch { requested: u16, bound: u16 },
}

/// Whether a socket bound to `bound` honours a request for `requested`: only port 0
/// lets the system choose.
pub open spec fn port_honoured(requested: u16, bound: u16) -> bool {
    requested == 0 || requested == bound
}

/// `http://` followed by the connection string.
pub open spec fn http_url(host: Seq<char>, port: u16) -> Seq<char> {
    "http://"@ + host_port(host, port)
}

impl AppService {
    pub fn get_connection_string(&self) -> (r: String)
        ensures
            r@ == host_port(self.host@, self.port),
    {
        let mut s = self.host.clone();
        s.append(":");
        proof { reveal_strlit(":"); }
        push_decimal(&mut s, self.port);
        assert(s@ =~= host_port(self.host@, self.port));
        s
    }

    pub fn get_http_string(&self) -> (r: String)
        ensures
            r@ == http_url(self.host@, self.port),
    {
        let conn = self.get_connection_string();
        let s = String::from_str("http://").concat(conn.as_str());
        s
    }
}

impl Application {
    /// Takes a socket bound to `bound_host:bound_port` for the service that `cfg` asks for.
    /// A socket on another port than the one asked for is refused, unless `cfg` asked for
    /// any free port.
    pub fn create(cfg: &Config, bound_host: String, bound_port: u16) -> (r: Result<AppService, StartError>)
        ensures
            r is Ok <==> port_honoured(cfg.port, bound_port),
            r matches Ok(s) ==> s.host@ == bound_host@ && s.port == bound_port,
            r matches Ok(s) ==> s.lifecycle.wf() && s.lifecycle.phase is Running
                && s.lifecycle.in_flight == 0 && !s.lifecycle.failed,
            r matches Ok(s) ==> s.lifecycle.refuses_after_signal(),
            r matches Ok(s) ==> s.lifecycle.signal_cancels_nothing(),
            r matches Ok(s) ==> s.lifecycle.ends_drained(),
            r matches Err(e) ==> e == (StartError::PortMismatch { requested: cfg.port, bound: bound_port }),
    {
        if cfg.port == 0 || cfg.port == bound_port {
            Ok(AppService { host: bound_host, port: bound_port, lifecycle: Lifecycle::new() })
        } else {
            Err(StartError::PortMismatch { requested: cfg.port, bound: bound_port })
        }
    }
}

/// A service never stands on another port than the one asked for, but where port 0 was
/// asked for.
pub proof fn lemma_no_port_fallback(cfg: Config, bound_port: u16, r: Result<AppService, StartError>)
    requires
        r is Ok <==> port_honoured(cfg.port, bound_port),
        r matches Ok(s) ==> s.port == bound_port,
    ensures
        cfg.port != 0 ==> (r matches Ok(s) ==> s.port == cfg.port),
{
}

} // verus!
