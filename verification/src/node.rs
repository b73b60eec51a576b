use vstd::prelude::*;
use vstd::string::*;

use crate::log_level::{spec_log_level_code, LogLevel};
use crate::text::{dec_string, dec_string_i64, spec_dec, spec_dec_signed};

verus! {

/// One server node of the catalog: the credentials of a remote proxy server,
/// keyed by `name` within the catalog.
#[derive(Debug, PartialEq, Eq)]
pub struct ServerNode {
    pub name: String,
    pub addr: String,
    pub port: u16,
    pub password: String,
}

impl Clone for ServerNode {
    fn clone(&self) -> (r: Self)
        ensures
            r == *self,
    {
        ServerNode {
            name: self.name.clone(),
            addr: self.addr.clone(),
            port: self.port,
            password: self.password.clone(),
        }
    }
}

/// The exact text of the external proxy configuration file for one remote
/// node: a single-record document with the fixed `"client"` run type, one
/// credential, and the given listener endpoint, log level and log file path.
pub open spec fn spec_trojan_json(
    log_level: int,
    log_file: Seq<char>,
    local_addr: Seq<char>,
    local_port: u16,
    remote_addr: Seq<char>,
    remote_port: u16,
    password: Seq<char>,
) -> Seq<char> {
    "{\"run_type\": \"client\", \"log_level\": "@ + spec_dec_signed(log_level)
        + ", \"log_file\": \""@ + log_file + "\", \"local_addr\": \""@ + local_addr
        + "\", \"local_port\": "@ + spec_dec(local_port as int) + ", \"remote_addr\": \""@
        + remote_addr + "\", \"remote_port\": "@ + spec_dec(remote_port as int)
        + ", \"password\": [\""@ + password + "\"]}"@
}

impl ServerNode {
    pub fn name(&self) -> (r: &str)
        ensures
            r@ == self.name@,
    {
        self.name.as_str()
    }

    pub fn addr(&self) -> (r: &str)
        ensures
            r@ == self.addr@,
    {
        self.addr.as_str()
    }

    pub fn port(&self) -> (r: u16)
        ensures
            r == self.port,
    {
        self.port
    }

    pub fn password(&self) -> (r: &str)
        ensures
            r@ == self.password@,
    {
        self.password.as_str()
    }

    /// Renders the external proxy configuration text that makes the
    /// supervised executable connect to this node through the given local
    /// listener, writing its log at `log_file`.
    ///
    /// On the platform whose native path separator is a backslash, the caller
    /// must pass `log_file` with each backslash doubled, as the raw text is
    /// embedded without escaping.
    pub fn to_string(&self, local_addr: &str, local_port: u16, log_level: LogLevel, log_file: &str)
        -> (r: String)
        ensures
            r@ == spec_trojan_json(
                spec_log_level_code(log_level),
                log_file@,
                local_addr@,
                local_port,
                self.addr@,
                self.port,
                self.password@,
            ),
    {
        let mut s = String::from_str("{\"run_type\": \"client\", \"log_level\": ");
        let level = dec_string_i64(log_level.code() as i64);
        s.append(level.as_str());
        s.append(", \"log_file\": \"");
        s.append(log_file);
        s.append("\", \"local_addr\": \"");
        s.append(local_addr);
        s.append("\", \"local_port\": ");
        let lport = dec_string(local_port as u64);
        s.append(lport.as_str());
        s.append(", \"remote_addr\": \"");
        s.append(self.addr.as_str());
        s.append("\", \"remote_port\": ");
        let rport = dec_string(self.port as u64);
        s.append(rport.as_str());
        s.append(", \"password\": [\"");
        s.append(self.password.as_str());
        s.append("\"]}");
        proof {
            assert(s@ =~= spec_trojan_json(
                spec_log_level_code(log_level),
                log_file@,
                local_addr@,
                local_port,
                self.addr@,
                self.port,
                self.password@,
            ));
        }
        s
    }
}

} // verus!
