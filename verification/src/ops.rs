use vstd::prelude::*;

verus! {

/// Outcome of a health probe: the cluster label and the wallet the
/// process resolved, ready to be rendered by a caller.
#[derive(Debug)]
pub struct Health {
    pub ok: bool,
    pub cluster: String,
    pub wallet_pubkey: String,
    pub store_address: String,
}

/// The network clusters a client can be built for.
#[derive(Clone, Copy, Debug, PartialEq, Eq, Structural)]
pub enum ClusterKind {
    Mainnet,
    Devnet,
}

/// Classifies a cluster label: exactly `mainnet` and `devnet` are
/// recognized, every other label is rejected.
pub fn parse_cluster(label: &str) -> (r: Option<ClusterKind>)
    ensures
        r == Some(ClusterKind::Mainnet) <==> label@ == "mainnet"@,
        r == Some(ClusterKind::Devnet) <==> label@ == "devnet"@,
        r is None <==> label@ != "mainnet"@ && label@ != "devnet"@,
{
    proof {
        reveal_strlit("mainnet");
        reveal_strlit("devnet");
        assert("mainnet"@.len() == 7);
        assert("devnet"@.len() == 6);
        assert("mainnet"@ != "devnet"@);
    }
    let given = String::from_str(label);
    if given == String::from_str("mainnet") {
        Some(ClusterKind::Mainnet)
    } else if given == String::from_str("devnet") {
        Some(ClusterKind::Devnet)
    } else {
        None
    }
}

/// Assembles the health report for a resolved wallet on a cluster.
pub fn health_report(cluster: String, wallet_pubkey: String, store_address: String) -> (h: Health)
    ensures
        h.ok,
        h.cluster == cluster,
        h.wallet_pubkey == wallet_pubkey,
        h.store_address == store_address,
{
    Health { ok: true, cluster, wallet_pubkey, store_address }
}

} // verus!
