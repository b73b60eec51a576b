use vstd::prelude::*;
use vstd::string::*;

use crate::node::ServerNode;

verus! {

/// The connection parameters read back from the external proxy configuration
/// file: the remote endpoint and the credential list. The schema reserves a
/// list of passwords, but this program always writes exactly one.
#[derive(Debug, PartialEq, Eq)]
pub struct TrojanConfig {
    pub remote_addr: String,
    pub remote_port: u16,
    pub password: Vec<String>,
}

impl TrojanConfig {
    /// The external configuration derived from one server node: its address,
    /// port, and a single-element credential list.
    pub fn from_node(node: &ServerNode) -> (r: Self)
        ensures
            r.remote_addr@ == node.addr@,
            r.remote_port == node.port,
            r.password@.len() == 1,
            r.password@[0]@ == node.password@,
    {
        TrojanConfig {
            remote_addr: node.addr.clone(),
            remote_port: node.port,
            password: vec![node.password.clone()],
        }
    }

    pub fn remote_addr(&self) -> (r: &str)
        ensures
            r@ == self.remote_addr@,
    {
        self.remote_addr.as_str()
    }

    pub fn remote_port(&self) -> (r: u16)
        ensures
            r == self.remote_port,
    {
        self.remote_port
    }

    /// The first (and, as written by this program, only) credential.
    pub fn password(&self) -> (r: &str)
        requires
            self.password@.len() > 0,
        ensures
            r@ == self.password@[0]@,
    {
        self.password[0].as_str()
    }
}

/// What reading the external proxy configuration file yielded: the file may
/// be absent (a normal outcome, not an error), unreadable as structured data,
/// or parsed into its connection parameters.
#[derive(Debug)]
pub enum TrojanFileState {
    Missing,
    Malformed,
    Parsed(TrojanConfig),
}

} // verus!
