//! Where the server listens.
use vstd::prelude::*;
use vstd::string::StringExecFns;

verus! {

/// Host and port to listen on.
pub struct Config {
    pub host: String,
    pub port: String,
}

impl Config {
    /// The socket address to bind, written `host:port`.
    pub fn address(&self) -> (r: String)
        ensures
            r@ == self.host@ + seq![':'] + self.port@,
    {
        let mut r = self.host.clone();
        r.append(":");
        r.append(self.port.as_str());
        proof {
            reveal_strlit(":");
        }
        r
    }
}

} // verus!
