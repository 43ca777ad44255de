//! Client configuration: plain values the host process fills in from its
//! command line and environment.

use vstd::prelude::*;

verus! {

/// What the client needs to know to connect and log in.
pub struct Config {
    pub cert_path: String,
    pub server_addr: String,
    pub server_name: String,
    pub application_level_protocols: Vec<String>,
    pub user_name: String,
    pub theme: String,
    pub chat_id: i64,
    pub password: String,
}

impl Clone for Config {
    fn clone(&self) -> (r: Self)
        ensures
            r.cert_path@ == self.cert_path@,
            r.server_addr@ == self.server_addr@,
            r.server_name@ == self.server_name@,
            r.user_name@ == self.user_name@,
            r.theme@ == self.theme@,
            r.chat_id == self.chat_id,
            r.password@ == self.password@,
    {
        Config {
            cert_path: self.cert_path.clone(),
            server_addr: self.server_addr.clone(),
            server_name: self.server_name.clone(),
            application_level_protocols: clone_strings(&self.application_level_protocols),
            user_name: self.user_name.clone(),
            theme: self.theme.clone(),
            chat_id: self.chat_id,
            password: self.password.clone(),
        }
    }
}

/// Clones a list of strings, preserving its characters.
pub fn clone_strings(v: &Vec<String>) -> (r: Vec<String>)
    ensures
        r@.map_values(|s: String| s@) == v@.map_values(|s: String| s@),
{
    let mut out: Vec<String> = Vec::new();
    let n = v.len();
    for i in 0..n
        invariant
            n == v.len(),
            out.len() == i,
            forall|j: int| 0 <= j < i ==> out@[j]@ == v@[j]@,
    {
        out.push(v[i].clone());
    }
    proof {
        assert(out@.map_values(|s: String| s@) =~= v@.map_values(|s: String| s@));
    }
    out
}

} // verus!
