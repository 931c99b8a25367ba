//! Host ports under which each cluster's proxy is reachable.

use vstd::prelude::*;
use crate::text::{decimal_digits, decimal_value, lemma_decimal_round_trip, lemma_decimal_value_push};

verus! {

/// The port inside the proxy container that serves the admin and web API.
pub const ADMIN_CONTAINER_PORT: u64 = 8080;

/// The port inside the proxy container that serves the binary protocol.
pub const DATA_CONTAINER_PORT: u64 = 6650;

/// The host ports that one cluster's proxy is published on.
#[derive(Clone, Copy, Debug, PartialEq, Eq, Structural)]
pub struct PortAssignment {
    pub cluster_index: u32,
    pub admin_port: u64,
    pub data_port: u64,
}

/// The numeral of the admin host port: the cluster index followed by `8080`.
pub open spec fn admin_port_digits(cluster_index: nat) -> Seq<char> {
    decimal_digits(cluster_index) + seq!['8', '0', '8', '0']
}

/// The numeral of the data host port: the cluster index followed by `6650`.
pub open spec fn data_port_digits(cluster_index: nat) -> Seq<char> {
    decimal_digits(cluster_index) + seq!['6', '6', '5', '0']
}

/// The admin host port of a cluster.
pub open spec fn admin_port(cluster_index: nat) -> nat {
    decimal_value(admin_port_digits(cluster_index))
}

/// The data host port of a cluster.
pub open spec fn data_port(cluster_index: nat) -> nat {
    decimal_value(data_port_digits(cluster_index))
}

/// The host ports of a cluster, as a record.
pub open spec fn assignment(cluster_index: u32) -> PortAssignment {
    PortAssignment {
        cluster_index,
        admin_port: admin_port(cluster_index as nat) as u64,
        data_port: data_port(cluster_index as nat) as u64,
    }
}

/// Writing four digits behind a numeral multiplies its value by ten thousand
/// and adds the value of the four digits.
pub proof fn lemma_port_arithmetic(cluster_index: nat)
    ensures
        admin_port(cluster_index) == cluster_index * 10000 + 8080,
        data_port(cluster_index) == cluster_index * 10000 + 6650,
{
    let d = decimal_digits(cluster_index);
    lemma_decimal_round_trip(cluster_index);
    lemma_decimal_value_push(d, '8');
    lemma_decimal_value_push(d.push('8'), '0');
    lemma_decimal_value_push(d.push('8').push('0'), '8');
    lemma_decimal_value_push(d.push('8').push('0').push('8'), '0');
    assert(admin_port_digits(cluster_index) =~= d.push('8').push('0').push('8').push('0'));
    lemma_decimal_value_push(d, '6');
    lemma_decimal_value_push(d.push('6'), '6');
    lemma_decimal_value_push(d.push('6').push('6'), '5');
    lemma_decimal_value_push(d.push('6').push('6').push('5'), '0');
    assert(data_port_digits(cluster_index) =~= d.push('6').push('6').push('5').push('0'));
}

/// No two clusters are given the same host port, and no admin port is
/// another cluster's data port.
pub proof fn lemma_ports_are_distinct(a: nat, b: nat)
    requires
        a != b,
    ensures
        admin_port(a) != admin_port(b),
        data_port(a) != data_port(b),
        admin_port(a) != data_port(b),
        admin_port(a) != data_port(a),
{
    lemma_port_arithmetic(a);
    lemma_port_arithmetic(b);
}

/// Assigns the host ports of the cluster with the given index.
pub fn allocate(cluster_index: u32) -> (p: PortAssignment)
    ensures
        p == assignment(cluster_index),
        p.cluster_index == cluster_index,
        p.admin_port == admin_port(cluster_index as nat),
        p.data_port == data_port(cluster_index as nat),
        p.admin_port == cluster_index * 10000 + 8080,
        p.data_port == cluster_index * 10000 + 6650,
{
    proof {
        lemma_port_arithmetic(cluster_index as nat);
    }
    let base: u64 = (cluster_index as u64) * 10000;
    PortAssignment {
        cluster_index,
        admin_port: base + ADMIN_CONTAINER_PORT,
        data_port: base + DATA_CONTAINER_PORT,
    }
}

} // verus!
