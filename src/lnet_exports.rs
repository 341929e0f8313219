//! The network transport document (`lnetctl net show -v 4`) as plain data. Decoding the
//! document into these types is done by a structured-data decoder outside this library.
use std::collections::HashMap;
use vstd::prelude::*;

verus! {

pub struct LocalNiS {
    pub nid: String,
    pub status: String,
    pub statistics: LNetStatistics,
    pub sent_stats: Stats,
    pub received_stats: Stats,
    pub dropped_stats: Stats,
    pub health_stats: HealthStats,
    pub tunables: Tunables,
    pub dev_cpt: i64,
    pub tcp_bonding: i64,
    pub cpt: String,
    pub interfaces: Option<HashMap<i64, String>>,
}

pub struct Stats {
    pub put: i64,
    pub get: i64,
    pub reply: i64,
    pub ack: i64,
    pub hello: i64,
}

pub struct HealthStats {
    pub health_value: i64,
    pub interrupts: i64,
    pub dropped: i64,
    pub aborted: i64,
    pub no_route: i64,
    pub timeouts: i64,
    pub error: i64,
}

pub struct HealthStatsPeer {
    pub health_value: i64,
    pub dropped: i64,
    pub timeout: i64,
    pub error: i64,
    pub network_timeout: i64,
}

pub struct Net {
    pub net_type: String,
    pub local_nis: Vec<LocalNiS>,
}

pub struct Global {
    pub numa_range: Option<i64>,
    pub max_intf: i64,
    pub discovery: i64,
    pub drop_asym_route: i64,
}

pub struct Peer {
    pub primary_nid: String,
    pub multi_rail: String,
    pub peer_ni: Vec<PeerNi>,
}

pub struct PeerNi {
    pub nid: String,
    pub state: String,
    pub max_ni_tx_credits: i64,
    pub available_tx_credits: i64,
    pub min_tx_credits: i64,
    pub tx_q_num_of_buf: i64,
    pub available_rtr_credits: i64,
    pub min_rtr_credits: i64,
    pub refcount: i64,
    pub statistics: LNetStatistics,
    pub sent_stats: Stats,
    pub received_stats: Stats,
    pub dropped_stats: Stats,
    pub health_stats: HealthStatsPeer,
}

/// The whole document; every section may be missing.
pub struct LNetExport {
    pub net: Option<Vec<Net>>,
    pub peer: Option<Vec<Peer>>,
    pub global: Option<Global>,
}

pub struct LNetStatistics {
    pub send_count: i64,
    pub recv_count: i64,
    pub drop_count: i64,
}

pub struct Tunables {
    pub peer_timeout: i64,
    pub peer_credits: i64,
    pub peer_buffer_credits: i64,
    pub credits: i64,
}

} // verus!
