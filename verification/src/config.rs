use vstd::prelude::*;
use vstd::string::*;

use crate::error::Error;
use crate::laws::lemma_add_preserves_wf;
use crate::log_level::{spec_log_level_code, LogLevel};
use crate::node::{spec_trojan_json, ServerNode};
use crate::text::{spec_dec, str_eq};
use crate::trojan::TrojanConfig;

verus! {

/// The node catalog together with the local listener endpoint, the PAC URL
/// and the log level: this program's own persisted bookkeeping, distinct from
/// the external configuration file the supervised process reads.
#[derive(Debug)]
pub struct Config {
    pub local_addr: String,
    pub local_port: u16,
    pub log_level: LogLevel,
    pub pac: String,
    pub nodes: Vec<ServerNode>,
}

/// Two nodes clash when they share a name or an address: the catalog keeps
/// at most one node per name and one per address.
pub open spec fn spec_clash(a: ServerNode, b: ServerNode) -> bool {
    a.name@ == b.name@ || a.addr@ == b.addr@
}

pub open spec fn spec_has_clash(nodes: Seq<ServerNode>, n: ServerNode) -> bool {
    exists|i: int| 0 <= i < nodes.len() && spec_clash(nodes[i], n)
}

/// Inserting a node is a no-op when some entry clashes with it, an append
/// otherwise.
pub open spec fn spec_add_node(nodes: Seq<ServerNode>, n: ServerNode) -> Seq<ServerNode> {
    if spec_has_clash(nodes, n) {
        nodes
    } else {
        nodes.push(n)
    }
}

/// Replacing at `i` overwrites the entry, except at `i == len`, where it
/// degrades to an insert.
pub open spec fn spec_update_node(nodes: Seq<ServerNode>, i: int, n: ServerNode) -> Seq<
    ServerNode,
> {
    if i == nodes.len() {
        spec_add_node(nodes, n)
    } else {
        nodes.update(i, n)
    }
}

/// The catalog invariant: node names are pairwise distinct, and so are node
/// addresses.
pub open spec fn spec_nodes_wf(nodes: Seq<ServerNode>) -> bool {
    forall|i: int, j: int|
        0 <= i < j < nodes.len() ==> nodes[i].name@ != nodes[j].name@ && nodes[i].addr@
            != nodes[j].addr@
}

/// Whether `n` is the node the external configuration `t` points at: the
/// `(address, port, first password)` triples agree.
pub open spec fn spec_node_matches(n: ServerNode, t: TrojanConfig) -> bool {
    n.addr@ == t.remote_addr@ && n.port == t.remote_port && t.password@.len() > 0 && n.password@
        == t.password@[0]@
}

/// The first catalog node the external configuration `t` points at, scanning
/// in catalog order.
pub open spec fn spec_resolve(nodes: Seq<ServerNode>, t: TrojanConfig) -> Option<ServerNode>
    decreases nodes.len(),
{
    if nodes.len() == 0 {
        None
    } else if spec_node_matches(nodes[0], t) {
        Some(nodes[0])
    } else {
        spec_resolve(nodes.drop_first(), t)
    }
}

/// The first catalog node with the given name.
pub open spec fn spec_find_by_name(nodes: Seq<ServerNode>, name: Seq<char>) -> Option<ServerNode>
    decreases nodes.len(),
{
    if nodes.len() == 0 {
        None
    } else if nodes[0].name@ == name {
        Some(nodes[0])
    } else {
        spec_find_by_name(nodes.drop_first(), name)
    }
}

impl Default for Config {
    /// A fresh catalog: loopback listener on port 1086, the stock PAC URL,
    /// `Info` logging, and no nodes.
    fn default() -> (r: Self)
        ensures
            r.local_addr@ == "127.0.0.1"@,
            r.local_port == 1086,
            r.log_level == LogLevel::Info,
            r.pac@
                == "https://mirror.ghproxy.com/https://raw.githubusercontent.com/thep0y/pac/main/blacklist.pac"@,
            r.nodes@ == Seq::<ServerNode>::empty(),
    {
        Config {
            local_addr: String::from_str("127.0.0.1"),
            local_port: 1086,
            log_level: LogLevel::Info,
            pac: String::from_str(
                "https://mirror.ghproxy.com/https://raw.githubusercontent.com/thep0y/pac/main/blacklist.pac",
            ),
            nodes: Vec::new(),
        }
    }
}

impl Config {
    pub fn set_local_addr(&mut self, local_addr: &str)
        ensures
            final(self).local_addr@ == local_addr@,
            final(self).local_port == old(self).local_port,
            final(self).log_level == old(self).log_level,
            final(self).pac == old(self).pac,
            final(self).nodes == old(self).nodes,
    {
        self.local_addr = String::from_str(local_addr);
    }

    pub fn set_local_port(&mut self, local_port: u16)
        ensures
            final(self).local_port == local_port,
            final(self).local_addr == old(self).local_addr,
            final(self).log_level == old(self).log_level,
            final(self).pac == old(self).pac,
            final(self).nodes == old(self).nodes,
    {
        self.local_port = local_port;
    }

    pub fn set_pac(&mut self, pac: &str)
        ensures
            final(self).pac@ == pac@,
            final(self).local_addr == old(self).local_addr,
            final(self).local_port == old(self).local_port,
            final(self).log_level == old(self).log_level,
            final(self).nodes == old(self).nodes,
    {
        self.pac = String::from_str(pac);
    }

    pub fn set_log_level(&mut self, log_level: LogLevel)
        ensures
            final(self).log_level == log_level,
            final(self).local_addr == old(self).local_addr,
            final(self).local_port == old(self).local_port,
            final(self).pac == old(self).pac,
            final(self).nodes == old(self).nodes,
    {
        self.log_level = log_level;
    }

    /// The URL of the local SOCKS front-end, `socks5h://{addr}:{port}`.
    pub fn local_socks5_addr(&self) -> (r: String)
        ensures
            r@ == "socks5h://"@ + self.local_addr@ + ":"@ + spec_dec(self.local_port as int),
    {
        let mut s = String::from_str("socks5h://");
        s.append(self.local_addr.as_str());
        s.append(":");
        let port = crate::text::dec_string(self.local_port as u64);
        s.append(port.as_str());
        proof {
            assert(s@ =~= "socks5h://"@ + self.local_addr@ + ":"@ + spec_dec(
                self.local_port as int,
            ));
        }
        s
    }

    pub fn pac(&self) -> (r: &str)
        ensures
            r@ == self.pac@,
    {
        self.pac.as_str()
    }

    /// Inserts `server_node` unless an entry already shares its name or its
    /// address; a clash makes the call a silent no-op, so that "ensure
    /// present" is idempotent.
    pub fn add_server_node(&mut self, server_node: &ServerNode)
        ensures
            final(self).nodes@ == spec_add_node(old(self).nodes@, *server_node),
            spec_nodes_wf(old(self).nodes@) ==> spec_nodes_wf(final(self).nodes@),
            final(self).local_addr == old(self).local_addr,
            final(self).local_port == old(self).local_port,
            final(self).log_level == old(self).log_level,
            final(self).pac == old(self).pac,
    {
        proof {
            if spec_nodes_wf(self.nodes@) {
                lemma_add_preserves_wf(self.nodes@, *server_node);
            }
        }
        let n = self.nodes.len();
        let mut i: usize = 0;
        while i < n
            invariant
                n == self.nodes@.len(),
                i <= n,
                forall|j: int| 0 <= j < i ==> !spec_clash(self.nodes@[j], *server_node),
            decreases n - i,
        {
            let existing = &self.nodes[i];
            if str_eq(existing.name.as_str(), server_node.name.as_str()) || str_eq(
                existing.addr.as_str(),
                server_node.addr.as_str(),
            ) {
                return ;
            }
            i = i + 1;
        }
        self.nodes.push(server_node.clone());
    }

    /// Replaces the node at `index`; `index == len` appends with the same
    /// clash rule as `add_server_node`. A position past the end is a typed
    /// bounds error, and the catalog is left untouched.
    pub fn update_server_node(&mut self, index: usize, server_node: ServerNode) -> (r: Result<
        (),
        Error,
    >)
        ensures
            r is Ok <==> index <= old(self).nodes@.len(),
            r is Ok ==> final(self).nodes@ == spec_update_node(
                old(self).nodes@,
                index as int,
                server_node,
            ),
            index == old(self).nodes@.len() && spec_nodes_wf(old(self).nodes@)
                ==> spec_nodes_wf(final(self).nodes@),
            r matches Err(e) ==> (e matches Error::Config(m) && m@
                == "server node index out of bounds: "@ + spec_dec(index as int) && *final(self)
                == *old(self)),
            final(self).local_addr == old(self).local_addr,
            final(self).local_port == old(self).local_port,
            final(self).log_level == old(self).log_level,
            final(self).pac == old(self).pac,
    {
        if index > self.nodes.len() {
            let mut m = String::from_str("server node index out of bounds: ");
            let digits = crate::text::dec_string(index as u64);
            m.append(digits.as_str());
            return Err(Error::Config(m));
        }
        if index == self.nodes.len() {
            self.add_server_node(&server_node);
        } else {
            self.nodes[index] = server_node;
        }
        Ok(())
    }

    /// The catalog node the external configuration points at, if any. `None`
    /// means the selection is unknown — the referenced node may have been
    /// deleted or edited out from under the running process — and callers
    /// must not synthesize a default.
    pub fn get_using_server_node(&self, trojan: Option<&TrojanConfig>) -> (r: Option<ServerNode>)
        ensures
            match trojan {
                None => r is None,
                Some(t) => r == spec_resolve(self.nodes@, *t),
            },
    {
        let t = match trojan {
            None => {
                return None;
            },
            Some(t) => t,
        };
        let n = self.nodes.len();
        let mut i: usize = 0;
        proof {
            assert(trojan is Some);
            assert(self.nodes@.skip(0) =~= self.nodes@);
        }
        while i < n
            invariant
                trojan matches Some(tr) && tr == t,
                n == self.nodes@.len(),
                i <= n,
                spec_resolve(self.nodes@, *t) == spec_resolve(self.nodes@.skip(i as int), *t),
            decreases n - i,
        {
            let node = &self.nodes[i];
            let matches_port_addr = node.port == t.remote_port && str_eq(
                node.addr.as_str(),
                t.remote_addr.as_str(),
            );
            let is_match = matches_port_addr && t.password.len() > 0 && str_eq(
                node.password.as_str(),
                t.password[0].as_str(),
            );
            proof {
                assert(self.nodes@.skip(i as int)[0] == self.nodes@[i as int]);
            }
            if is_match {
                return Some(node.clone());
            }
            proof {
                assert(self.nodes@.skip(i as int).drop_first() =~= self.nodes@.skip(i as int + 1));
            }
            i = i + 1;
        }
        proof {
            assert(self.nodes@.skip(n as int).len() == 0);
        }
        None
    }

    /// Looks `name` up in the catalog and renders the external configuration
    /// text for the node found; an absent name is the `Config` error. Nothing
    /// is written here: the caller persists the returned text to the external
    /// configuration path.
    pub fn set_server_node(&self, name: &str, log_file: &str) -> (r: Result<String, Error>)
        ensures
            r is Ok <==> spec_find_by_name(self.nodes@, name@) is Some,
            r matches Ok(text) ==> text@ == spec_trojan_json(
                spec_log_level_code(self.log_level),
                log_file@,
                self.local_addr@,
                self.local_port,
                spec_find_by_name(self.nodes@, name@)->Some_0.addr@,
                spec_find_by_name(self.nodes@, name@)->Some_0.port,
                spec_find_by_name(self.nodes@, name@)->Some_0.password@,
            ),
            r matches Err(e) ==> e matches Error::Config(m) && m@ == "server node not found: "@
                + name@,
    {
        let n = self.nodes.len();
        let mut i: usize = 0;
        proof {
            assert(self.nodes@.skip(0) =~= self.nodes@);
        }
        while i < n
            invariant
                n == self.nodes@.len(),
                i <= n,
                spec_find_by_name(self.nodes@, name@) == spec_find_by_name(
                    self.nodes@.skip(i as int),
                    name@,
                ),
            decreases n - i,
        {
            let node = &self.nodes[i];
            proof {
                assert(self.nodes@.skip(i as int)[0] == self.nodes@[i as int]);
            }
            if str_eq(node.name.as_str(), name) {
                let text = node.to_string(
                    self.local_addr.as_str(),
                    self.local_port,
                    self.log_level,
                    log_file,
                );
                return Ok(text);
            }
            proof {
                assert(self.nodes@.skip(i as int).drop_first() =~= self.nodes@.skip(i as int + 1));
            }
            i = i + 1;
        }
        proof {
            assert(self.nodes@.skip(n as int).len() == 0);
        }
        let mut m = String::from_str("server node not found: ");
        m.append(name);
        Err(Error::Config(m))
    }

    /// Renders the external configuration text for `server_node` using this
    /// catalog's local endpoint and log level. The caller persists it.
    pub fn trojan_config_text(&self, server_node: &ServerNode, log_file: &str) -> (r: String)
        ensures
            r@ == spec_trojan_json(
                spec_log_level_code(self.log_level),
                log_file@,
                self.local_addr@,
                self.local_port,
                server_node.addr@,
                server_node.port,
                server_node.password@,
            ),
    {
        server_node.to_string(self.local_addr.as_str(), self.local_port, self.log_level, log_file)
    }
}

} // verus!
