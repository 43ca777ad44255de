//! Transport client settings: what a connection attempt needs to know.
//! The connection attempt itself is the host process's job.

use vstd::prelude::*;
use vstd::string::StringExecFns;

verus! {

/// Settings for connecting to a server.
pub struct Client {
    pub cert_path: String,
    pub server_addr: String,
    pub server_name: String,
    pub application_level_protocols: Vec<String>,
}

impl Client {
    /// Default settings: everything empty but the protocol list, which
    /// offers the two protocols the transport speaks.
    pub fn new() -> (r: Self)
        ensures
            r.cert_path@.len() == 0,
            r.server_addr@.len() == 0,
            r.server_name@.len() == 0,
            r.application_level_protocols@.map_values(|s: String| s@) == seq!["hq-29"@, "quic-demo"@],
    {
        let mut alp: Vec<String> = Vec::new();
        alp.push(String::from_str("hq-29"));
        alp.push(String::from_str("quic-demo"));
        proof {
            assert(alp@.map_values(|s: String| s@) =~= seq!["hq-29"@, "quic-demo"@]);
        }
        Client {
            cert_path: String::new(),
            server_addr: String::new(),
            server_name: String::new(),
            application_level_protocols: alp,
        }
    }

    /// Sets the certificate path.
    pub fn with_cert_path(&mut self, cert_path: String) -> (r: &mut Self)
        ensures
            *r == (Client {
                cert_path,
                server_addr: old(self).server_addr,
                server_name: old(self).server_name,
                application_level_protocols: old(self).application_level_protocols,
            }),
            *final(self) == *final(r),
    {
        self.cert_path = cert_path;
        self
    }

    /// Sets the server address.
    pub fn with_server_addr(&mut self, server_addr: String) -> (r: &mut Self)
        ensures
            *r == (Client {
                cert_path: old(self).cert_path,
                server_addr,
                server_name: old(self).server_name,
                application_level_protocols: old(self).application_level_protocols,
            }),
            *final(self) == *final(r),
    {
        self.server_addr = server_addr;
        self
    }

    /// Sets the name the server's certificate must carry.
    pub fn with_server_name(&mut self, server_name: String) -> (r: &mut Self)
        ensures
            *r == (Client {
                cert_path: old(self).cert_path,
                server_addr: old(self).server_addr,
                server_name,
                application_level_protocols: old(self).application_level_protocols,
            }),
            *final(self) == *final(r),
    {
        self.server_name = server_name;
        self
    }

    /// Replaces the protocol list.
    pub fn with_application_level_protocols(&mut self, alp: Vec<String>) -> (r: &mut Self)
        ensures
            *r == (Client {
                cert_path: old(self).cert_path,
                server_addr: old(self).server_addr,
                server_name: old(self).server_name,
                application_level_protocols: alp,
            }),
            *final(self) == *final(r),
    {
        self.application_level_protocols = alp;
        self
    }
}

} // verus!
