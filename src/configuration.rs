use vstd::prelude::*;
use vstd::string::StringExecFns;
use crate::text::{decimal, push_decimal};

verus! {

/// Where the service binds, and how much it logs.
pub struct Config {
    /// Enable debug mode
    pub debug: bool,
    /// Host to bind to
    pub host: String,
    /// Port to bind to; `0` asks for any free port
    pub port: u16,
}

/// `host:port`, the port written in decimal.
pub open spec fn host_port(host: Seq<char>, port: u16) -> Seq<char> {
    host + seq![':'] + decimal(port as nat)
}

impl Config {
    pub fn connection_string(&self) -> (r: String)
        ensures
            r@ == host_port(self.host@, self.port),
    {
        let mut s = self.host.clone();
        s.append(":");
        proof { reveal_strlit(":"); }
        push_decimal(&mut s, self.port);
        assert(s@ =~= host_port(self.host@, self.port));
        s
    }

    pub fn log_level(&self) -> (r: &'static str)
        ensures
            r@ == (if self.debug { "debug"@ } else { "info"@ }),
    {
        if self.debug { "debug" } else { "info" }
    }
}

impl Default for Config {
    fn default() -> (r: Config)
        ensures
            !r.debug,
            r.host@ == "127.0.0.1"@,
            r.port == 0,
    {
        Config { debug: false, host: String::from_str("127.0.0.1"), port: 0 }
    }
}

} // verus!
