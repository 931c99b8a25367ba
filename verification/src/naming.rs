//! Laws of the names in a descriptor: different things never share a name.

use vstd::prelude::*;
use crate::instance_config::Topology;
use crate::graph::service_graph;
use crate::ordering::{fits, lemma_services_are_unique};
use crate::service::{cluster_name_of, service_name_of, volume_name_of, ServiceId, Volume};
use crate::text::{
    decimal_digits, lemma_concat_cancel, lemma_dashed_numerals_injective,
    lemma_decimal_digits_are_digits, lemma_decimal_digits_injective,
};

verus! {

/// Two clusters never share a name.
pub proof fn lemma_cluster_names_differ(a: nat, b: nat)
    requires
        cluster_name_of(a) == cluster_name_of(b),
    ensures
        a == b,
{
    lemma_concat_cancel("cluster-"@, decimal_digits(a), decimal_digits(b));
    lemma_decimal_digits_injective(a, b);
}

/// The name of a cluster followed by a dash and a replica number tells both numbers.
pub proof fn lemma_replica_names_differ(a: nat, b: nat, c: nat, d: nat)
    requires
        cluster_name_of(a) + "-"@ + decimal_digits(b) == cluster_name_of(c) + "-"@
            + decimal_digits(d),
    ensures
        a == c,
        b == d,
{
    reveal_strlit("-");
    assert("-"@ =~= seq!['-']);
    let left = decimal_digits(a) + seq!['-'] + decimal_digits(b);
    let right = decimal_digits(c) + seq!['-'] + decimal_digits(d);
    assert(cluster_name_of(a) + "-"@ + decimal_digits(b) =~= "cluster-"@ + left);
    assert(cluster_name_of(c) + "-"@ + decimal_digits(d) =~= "cluster-"@ + right);
    lemma_concat_cancel("cluster-"@, left, right);
    lemma_dashed_numerals_injective(a, b, c, d);
}

/// Two volumes never share a name.
pub proof fn lemma_volume_names_differ(a: Volume, b: Volume)
    requires
        volume_name_of(a.cluster as nat, a.replica as nat) == volume_name_of(
            b.cluster as nat,
            b.replica as nat,
        ),
    ensures
        a == b,
{
    let left = cluster_name_of(a.cluster as nat) + "-"@ + decimal_digits(a.replica as nat);
    let right = cluster_name_of(b.cluster as nat) + "-"@ + decimal_digits(b.replica as nat);
    assert(volume_name_of(a.cluster as nat, a.replica as nat) =~= "bookie-data-"@ + left);
    assert(volume_name_of(b.cluster as nat, b.replica as nat) =~= "bookie-data-"@ + right);
    lemma_concat_cancel("bookie-data-"@, left, right);
    lemma_replica_names_differ(
        a.cluster as nat,
        a.replica as nat,
        b.cluster as nat,
        b.replica as nat,
    );
}

/// The word that a service name begins with, by the kind of the service.
pub open spec fn kind_prefix(id: ServiceId) -> Seq<char> {
    match id {
        ServiceId::Zookeeper { .. } => "zookeeper-"@,
        ServiceId::ClusterInitJob { .. } => "pulsar-init-job-"@,
        ServiceId::Bookie { .. } => "bookie-"@,
        ServiceId::Broker { .. } => "broker-"@,
        ServiceId::Proxy { .. } => "pulsar-proxy-"@,
        ServiceId::PostClusterRegistrationJob { .. } => "pulsar-post-cluster-create-job-"@,
    }
}

/// What stands behind that word: the numbers that tell services of one kind apart.
pub open spec fn numbers_part(id: ServiceId) -> Seq<char> {
    match id {
        ServiceId::Zookeeper { replica } => decimal_digits(replica as nat),
        ServiceId::ClusterInitJob { cluster } => cluster_name_of(cluster as nat),
        ServiceId::Bookie { cluster, replica } => cluster_name_of(cluster as nat) + "-"@
            + decimal_digits(replica as nat),
        ServiceId::Broker { cluster, replica } => cluster_name_of(cluster as nat) + "-"@
            + decimal_digits(replica as nat),
        ServiceId::Proxy { cluster } => cluster_name_of(cluster as nat),
        ServiceId::PostClusterRegistrationJob { cluster } => cluster_name_of(cluster as nat),
    }
}

/// A service name is the word of its kind and then its numbers.
pub proof fn lemma_name_shape(id: ServiceId)
    ensures
        service_name_of(id) == kind_prefix(id) + numbers_part(id),
        numbers_part(id).len() >= 1,
{
    assert(service_name_of(id) =~= kind_prefix(id) + numbers_part(id));
    match id {
        ServiceId::Zookeeper { replica } => {
            lemma_decimal_digits_are_digits(replica as nat);
        },
        ServiceId::Bookie { replica, .. } => {
            lemma_decimal_digits_are_digits(replica as nat);
        },
        ServiceId::Broker { replica, .. } => {
            lemma_decimal_digits_are_digits(replica as nat);
        },
        ServiceId::ClusterInitJob { cluster } => {
            lemma_decimal_digits_are_digits(cluster as nat);
        },
        ServiceId::Proxy { cluster } => {
            lemma_decimal_digits_are_digits(cluster as nat);
        },
        ServiceId::PostClusterRegistrationJob { cluster } => {
            lemma_decimal_digits_are_digits(cluster as nat);
        },
    }
}

/// The characters by which the kind of a service is read off its name.
pub proof fn lemma_name_tells_kind(id: ServiceId)
    ensures
        service_name_of(id).len() >= 8,
        match id {
            ServiceId::Zookeeper { .. } => service_name_of(id)[0] == 'z',
            ServiceId::Bookie { .. } => service_name_of(id)[0] == 'b' && service_name_of(id)[1]
                == 'o',
            ServiceId::Broker { .. } => service_name_of(id)[0] == 'b' && service_name_of(id)[1]
                == 'r',
            ServiceId::ClusterInitJob { .. } => service_name_of(id)[0] == 'p' && service_name_of(
                id,
            )[7] == 'i',
            ServiceId::Proxy { .. } => service_name_of(id)[0] == 'p' && service_name_of(id)[7]
                == 'p' && service_name_of(id)[8] == 'r',
            ServiceId::PostClusterRegistrationJob { .. } => service_name_of(id)[0] == 'p'
                && service_name_of(id)[7] == 'p' && service_name_of(id)[8] == 'o',
        },
{
    reveal_strlit("zookeeper-");
    reveal_strlit("pulsar-init-job-");
    reveal_strlit("bookie-");
    reveal_strlit("broker-");
    reveal_strlit("pulsar-proxy-");
    reveal_strlit("pulsar-post-cluster-create-job-");
    lemma_name_shape(id);
    let prefix = kind_prefix(id);
    let name = service_name_of(id);
    assert(prefix.len() >= 7);
    assert(forall|i: int| 0 <= i < prefix.len() ==> name[i] == prefix[i]);
    match id {
        ServiceId::Zookeeper { .. } => {
            assert(name[0] == prefix[0]);
        },
        ServiceId::Bookie { .. } => {
            assert(name[0] == prefix[0]);
            assert(name[1] == prefix[1]);
        },
        ServiceId::Broker { .. } => {
            assert(name[0] == prefix[0]);
            assert(name[1] == prefix[1]);
        },
        ServiceId::ClusterInitJob { .. } => {
            assert(name[0] == prefix[0]);
            assert(name[7] == prefix[7]);
        },
        ServiceId::Proxy { .. } => {
            assert(name[0] == prefix[0]);
            assert(name[7] == prefix[7]);
            assert(name[8] == prefix[8]);
        },
        ServiceId::PostClusterRegistrationJob { .. } => {
            assert(name[0] == prefix[0]);
            assert(name[7] == prefix[7]);
            assert(name[8] == prefix[8]);
        },
    }
}

/// Two services never share a name: the descriptor holds no entry twice, and
/// every edge names one service only.
pub proof fn lemma_service_names_differ(a: ServiceId, b: ServiceId)
    requires
        service_name_of(a) == service_name_of(b),
    ensures
        a == b,
{
    lemma_name_tells_kind(a);
    lemma_name_tells_kind(b);
    lemma_name_shape(a);
    lemma_name_shape(b);
    assert(a.kind_of() == b.kind_of());
    assert(kind_prefix(a) == kind_prefix(b));
    lemma_concat_cancel(kind_prefix(a), numbers_part(a), numbers_part(b));
    match (a, b) {
        (ServiceId::Zookeeper { replica: r }, ServiceId::Zookeeper { replica: s }) => {
            lemma_decimal_digits_injective(r as nat, s as nat);
        },
        (ServiceId::ClusterInitJob { cluster: c }, ServiceId::ClusterInitJob { cluster: d }) => {
            lemma_cluster_names_differ(c as nat, d as nat);
        },
        (ServiceId::Proxy { cluster: c }, ServiceId::Proxy { cluster: d }) => {
            lemma_cluster_names_differ(c as nat, d as nat);
        },
        (
            ServiceId::PostClusterRegistrationJob { cluster: c },
            ServiceId::PostClusterRegistrationJob { cluster: d },
        ) => {
            lemma_cluster_names_differ(c as nat, d as nat);
        },
        (
            ServiceId::Bookie { cluster: c, replica: r },
            ServiceId::Bookie { cluster: d, replica: s },
        ) => {
            lemma_replica_names_differ(c as nat, r as nat, d as nat, s as nat);
        },
        (
            ServiceId::Broker { cluster: c, replica: r },
            ServiceId::Broker { cluster: d, replica: s },
        ) => {
            lemma_replica_names_differ(c as nat, r as nat, d as nat, s as nat);
        },
        _ => {},
    }
}

/// The services at two different places of a graph have different names.
pub proof fn lemma_graph_names_differ(t: Topology, a: nat, b: nat)
    requires
        fits(t),
        a < service_graph(t).nodes.len(),
        b < service_graph(t).nodes.len(),
        a != b,
    ensures
        service_name_of(service_graph(t).nodes[a as int].id) != service_name_of(
            service_graph(t).nodes[b as int].id,
        ),
{
    if service_name_of(service_graph(t).nodes[a as int].id) == service_name_of(
        service_graph(t).nodes[b as int].id,
    ) {
        lemma_service_names_differ(
            service_graph(t).nodes[a as int].id,
            service_graph(t).nodes[b as int].id,
        );
        lemma_services_are_unique(t, a, b);
    }
}

} // verus!
