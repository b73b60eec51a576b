use vstd::prelude::*;

use crate::config::{
    spec_add_node, spec_clash, spec_has_clash, spec_node_matches, spec_nodes_wf, spec_resolve,
    spec_update_node,
};
use crate::node::ServerNode;
use crate::pac::{
    spec_gnome_pac_active, spec_kde_pac_active, spec_networksetup_enabled, spec_registry_pac_active,
};
use crate::text::{lemma_capture_skip, lemma_line_end_no_newline, spec_first_line_capture,
    spec_line_end, spec_marker_at};
use crate::trojan::TrojanConfig;

verus! {

/// Adding two nodes with distinct names and distinct addresses, neither
/// clashing with the catalog, leaves both present.
pub proof fn lemma_add_two_distinct(nodes: Seq<ServerNode>, n: ServerNode, m: ServerNode)
    requires
        !spec_has_clash(nodes, n),
        !spec_has_clash(nodes, m),
        !spec_clash(n, m),
    ensures
        spec_add_node(spec_add_node(nodes, n), m).contains(n),
        spec_add_node(spec_add_node(nodes, n), m).contains(m),
{
    let once = spec_add_node(nodes, n);
    assert(once == nodes.push(n));
    assert(once[nodes.len() as int] == n);
    assert(!spec_has_clash(once, m)) by {
        assert(forall|i: int| 0 <= i < nodes.len() ==> once[i] == nodes[i]);
    }
    let twice = spec_add_node(once, m);
    assert(twice == once.push(m));
    assert(twice[nodes.len() as int] == n);
    assert(twice[nodes.len() as int + 1] == m);
}

/// Inserting preserves the catalog invariant: names stay pairwise distinct,
/// and so do addresses. In particular, adding a node and then another that
/// reuses its name cannot produce a duplicate entry.
pub proof fn lemma_add_preserves_wf(nodes: Seq<ServerNode>, n: ServerNode)
    requires
        spec_nodes_wf(nodes),
    ensures
        spec_nodes_wf(spec_add_node(nodes, n)),
{
    if !spec_has_clash(nodes, n) {
        let after = nodes.push(n);
        assert forall|i: int, j: int| 0 <= i < j < after.len() implies after[i].name@
            != after[j].name@ && after[i].addr@ != after[j].addr@ by {
            if j == nodes.len() {
                assert(!spec_clash(nodes[i], n));
            }
        }
    }
}

/// After `add(n)` and then `add(n2)` with `n2.name == n.name` on a
/// well-formed catalog, at most one entry carries that name.
pub proof fn lemma_add_same_name_no_duplicate(
    nodes: Seq<ServerNode>,
    n: ServerNode,
    n2: ServerNode,
)
    requires
        spec_nodes_wf(nodes),
        n2.name@ == n.name@,
    ensures
        forall|i: int, j: int|
            0 <= i < j < spec_add_node(spec_add_node(nodes, n), n2).len() ==> !(spec_add_node(
                spec_add_node(nodes, n),
                n2,
            )[i].name@ == n.name@ && spec_add_node(spec_add_node(nodes, n), n2)[j].name@
                == n.name@),
{
    lemma_add_preserves_wf(nodes, n);
    lemma_add_preserves_wf(spec_add_node(nodes, n), n2);
}

/// Replacing at position `len` is exactly an insert.
pub proof fn lemma_update_at_len_is_add(nodes: Seq<ServerNode>, n: ServerNode)
    ensures
        spec_update_node(nodes, nodes.len() as int, n) == spec_add_node(nodes, n),
{
}

proof fn lemma_resolve_first_match(nodes: Seq<ServerNode>, t: TrojanConfig, k: int)
    requires
        0 <= k < nodes.len(),
        spec_node_matches(nodes[k], t),
        forall|i: int| 0 <= i < k ==> !spec_node_matches(nodes[i], t),
    ensures
        spec_resolve(nodes, t) == Some(nodes[k]),
    decreases k,
{
    if k > 0 {
        lemma_resolve_first_match(nodes.drop_first(), t, k - 1);
    }
}

/// Resolver round trip, first half: the external configuration derived from
/// a catalog node resolves back to exactly that node, in any well-formed
/// catalog that contains it. The derived configuration is what
/// `TrojanConfig::from_node` builds: the node's address, port, and single
/// credential.
pub proof fn lemma_resolver_round_trip(nodes: Seq<ServerNode>, n: ServerNode, t: TrojanConfig)
    requires
        spec_nodes_wf(nodes),
        nodes.contains(n),
        t.remote_addr@ == n.addr@,
        t.remote_port == n.port,
        t.password@.len() == 1,
        t.password@[0]@ == n.password@,
    ensures
        spec_resolve(nodes, t) == Some(n),
{
    let k = choose|k: int| 0 <= k < nodes.len() && nodes[k] == n;
    assert(spec_node_matches(nodes[k], t));
    assert forall|i: int| 0 <= i < k implies !spec_node_matches(nodes[i], t) by {
        if spec_node_matches(nodes[i], t) {
            assert(nodes[i].addr@ == nodes[k].addr@);
        }
    }
    lemma_resolve_first_match(nodes, t, k);
}

/// Resolver round trip, second half: once every node matching the external
/// configuration is gone from the catalog, resolution yields nothing.
pub proof fn lemma_resolver_no_match(nodes: Seq<ServerNode>, t: TrojanConfig)
    requires
        forall|i: int| 0 <= i < nodes.len() ==> !spec_node_matches(nodes[i], t),
    ensures
        spec_resolve(nodes, t) is None,
    decreases nodes.len(),
{
    if nodes.len() > 0 {
        lemma_resolver_no_match(nodes.drop_first(), t);
    }
}

/// On the platform that stores the PAC URL in a registry value, the query
/// reads back exactly what the enabling effect wrote: a non-empty URL reads
/// as active, and the empty value the disabling effect writes reads as
/// inactive.
pub proof fn lemma_registry_pac_round(pac: Seq<char>)
    requires
        pac.len() > 0,
    ensures
        spec_registry_pac_active(pac),
        !spec_registry_pac_active(""@),
{
    reveal_strlit("");
}

/// On the desktop platforms, the query reads back exactly the mode value the
/// effects write: the automatic-script mode reads as active and the disabled
/// mode as inactive, for both configuration tools.
pub proof fn lemma_desktop_pac_round()
    ensures
        spec_kde_pac_active("2"@),
        !spec_kde_pac_active("0"@),
        spec_gnome_pac_active("auto"@),
        !spec_gnome_pac_active("none"@),
{
    reveal_strlit("2");
    reveal_strlit("0");
    reveal_strlit("auto");
    reveal_strlit("none");
    assert("0"@[0] == '0' && "2"@[0] == '2');
    assert("auto"@[0] == 'a' && "none"@[0] == 'n');
}

/// On the platform that answers status queries as printed text, a status
/// text of the utility's shape — one line without the enabled marker, then
/// `"Enabled: <state>"` on its own line — reads back as active exactly when
/// the state is not `"No"`.
pub proof fn lemma_networksetup_status_read(prefix: Seq<char>, state: Seq<char>)
    requires
        state.len() > 0,
        forall|i: int| 0 <= i < prefix.len() ==> prefix[i] != '\n',
        forall|i: int| 0 <= i < state.len() ==> state[i] != '\n',
    ensures
        spec_networksetup_enabled(prefix + "\nEnabled: "@ + state) == (state != "No"@),
{
    let m = "\nEnabled: "@;
    reveal_strlit("\nEnabled: ");
    assert(m.len() == 10);
    assert(m[0] == '\n');
    let s = prefix + m + state;
    let p = prefix.len();
    assert forall|j: nat| j < p implies !spec_marker_at(s, m, j) by {
        if spec_marker_at(s, m, j) {
            assert(s.subrange(j as int, j as int + 10)[0] == s[j as int]);
            assert(s[j as int] == prefix[j as int]);
        }
    }
    lemma_capture_skip(s, m, None, 0, p as nat);
    assert(spec_marker_at(s, m, p as nat)) by {
        assert(s.subrange(p as int, p as int + 10) =~= m);
    }
    assert forall|j: int| p + 10 <= j < s.len() implies s[j] != '\n' by {
        assert(s[j] == state[j - (p + 10)]);
    }
    lemma_line_end_no_newline(s, (p + 10) as nat);
    assert(spec_line_end(s, (p + 10) as nat) == s.len());
    let cap = s.subrange(p as int + 10, s.len() as int);
    assert(cap =~= state);
    assert(spec_first_line_capture(s, m, p as nat, None) == Some(state));
}

/// The shape the utility prints after enabling with a URL (`Enabled: Yes`)
/// reads back as active; the shape it prints after disabling
/// (`Enabled: No`) reads back as inactive.
pub proof fn lemma_networksetup_pac_round(prefix: Seq<char>)
    requires
        forall|i: int| 0 <= i < prefix.len() ==> prefix[i] != '\n',
    ensures
        spec_networksetup_enabled(prefix + "\nEnabled: "@ + "Yes"@),
        !spec_networksetup_enabled(prefix + "\nEnabled: "@ + "No"@),
{
    reveal_strlit("Yes");
    reveal_strlit("No");
    lemma_networksetup_status_read(prefix, "Yes"@);
    lemma_networksetup_status_read(prefix, "No"@);
}

} // verus!
