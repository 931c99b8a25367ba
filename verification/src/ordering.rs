//! Laws of the service graph: where each service stands in it, and that every
//! service stands behind the services it waits for.

use vstd::prelude::*;
use crate::graph::{
    bookie_nodes, bookie_volumes, broker_nodes, cluster_nodes, cluster_volumes, clusters_nodes,
    dependencies, healthy, node_for, service_graph, zookeeper_nodes,
};
use crate::instance_config::{PulsarInstanceConfig, Topology};
use crate::service::{ready_condition_of, Dependency, ServiceId, Volume};

verus! {

/// Every count of the configuration fits the 32 bits it is stored in.
pub open spec fn fits(t: Topology) -> bool {
    t.clusters <= u32::MAX && t.zookeepers <= u32::MAX && t.bookies <= u32::MAX && t.brokers
        <= u32::MAX
}

/// The counts of a stored configuration always fit.
pub proof fn lemma_configuration_fits(args: PulsarInstanceConfig)
    ensures
        fits(args@),
{
}

/// The number of services that make up one cluster.
pub open spec fn cluster_size(t: Topology) -> nat {
    t.bookies + t.brokers + 3
}

/// Whether the graph of `t` holds a service with this identity.
pub open spec fn in_graph(t: Topology, id: ServiceId) -> bool {
    match id {
        ServiceId::Zookeeper { replica } => replica < t.zookeepers,
        ServiceId::ClusterInitJob { cluster } => cluster < t.clusters,
        ServiceId::Bookie { cluster, replica } => cluster < t.clusters && replica < t.bookies,
        ServiceId::Broker { cluster, replica } => cluster < t.clusters && replica < t.brokers,
        ServiceId::Proxy { cluster } => cluster < t.clusters,
        ServiceId::PostClusterRegistrationJob { cluster } => cluster < t.clusters,
    }
}

/// Where a service stands among the services of its cluster.
pub open spec fn offset_in_cluster(t: Topology, id: ServiceId) -> nat {
    match id {
        ServiceId::Zookeeper { .. } => 0,
        ServiceId::ClusterInitJob { .. } => 0,
        ServiceId::Bookie { replica, .. } => 1 + replica as nat,
        ServiceId::Broker { replica, .. } => 1 + t.bookies + replica as nat,
        ServiceId::Proxy { .. } => 1 + t.bookies + t.brokers,
        ServiceId::PostClusterRegistrationJob { .. } => 2 + t.bookies + t.brokers,
    }
}

/// Where a service stands in the graph, counted from zero.
pub open spec fn position_of(t: Topology, id: ServiceId) -> nat {
    match id {
        ServiceId::Zookeeper { replica } => replica as nat,
        _ => t.zookeepers + (id.cluster_of().unwrap() as nat) * cluster_size(t) + offset_in_cluster(
            t,
            id,
        ),
    }
}

/// The service that stands at `offset` among the services of a cluster.
pub open spec fn id_at_offset(t: Topology, cluster: u32, offset: nat) -> ServiceId {
    if offset == 0 {
        ServiceId::ClusterInitJob { cluster }
    } else if offset <= t.bookies {
        ServiceId::Bookie { cluster, replica: (offset - 1) as u32 }
    } else if offset <= t.bookies + t.brokers {
        ServiceId::Broker { cluster, replica: (offset - 1 - t.bookies) as u32 }
    } else if offset == t.bookies + t.brokers + 1 {
        ServiceId::Proxy { cluster }
    } else {
        ServiceId::PostClusterRegistrationJob { cluster }
    }
}

/// The services of one cluster stand in the order init job, bookies, brokers,
/// proxy, registration job.
pub proof fn lemma_cluster_nodes_at(t: Topology, cluster: u32, offset: nat)
    requires
        fits(t),
        offset < cluster_size(t),
    ensures
        cluster_nodes(t, cluster).len() == cluster_size(t),
        cluster_nodes(t, cluster)[offset as int] == node_for(t, id_at_offset(t, cluster, offset)),
        offset_in_cluster(t, id_at_offset(t, cluster, offset)) == offset,
        id_at_offset(t, cluster, offset).cluster_of() == Some(cluster),
        cluster < t.clusters ==> in_graph(t, id_at_offset(t, cluster, offset)),
{
    let head = seq![node_for(t, ServiceId::ClusterInitJob { cluster })];
    let bookies = bookie_nodes(t, cluster, t.bookies);
    let brokers = broker_nodes(t, cluster, t.brokers);
    let tail = seq![
        node_for(t, ServiceId::Proxy { cluster }),
        node_for(t, ServiceId::PostClusterRegistrationJob { cluster }),
    ];
    assert(cluster_nodes(t, cluster) == head + bookies + brokers + tail);
    assert(head.len() == 1);
    assert(tail.len() == 2);
    if offset == 0 {
    } else if offset <= t.bookies {
        assert(cluster_nodes(t, cluster)[offset as int] == bookies[offset - 1]);
    } else if offset <= t.bookies + t.brokers {
        assert(cluster_nodes(t, cluster)[offset as int] == brokers[offset - 1 - t.bookies]);
    } else {
        assert(cluster_nodes(t, cluster)[offset as int] == tail[offset - 1 - t.bookies
            - t.brokers]);
    }
}

/// The first `count` clusters hold `count` times the services of one cluster.
pub proof fn lemma_clusters_nodes_len(t: Topology, count: nat)
    requires
        fits(t),
        count <= t.clusters,
    ensures
        clusters_nodes(t, count).len() == count * cluster_size(t),
    decreases count,
{
    if count > 0 {
        lemma_clusters_nodes_len(t, (count - 1) as nat);
        lemma_cluster_nodes_at(t, (count - 1) as u32, 0);
        assert((count - 1) * cluster_size(t) + cluster_size(t) == count * cluster_size(t))
            by (nonlinear_arith);
    }
}

/// The service at `offset` of cluster `cluster` stands at the place that the
/// clusters before it leave free.
pub proof fn lemma_clusters_nodes_at(t: Topology, count: nat, cluster: nat, offset: nat)
    requires
        fits(t),
        count <= t.clusters,
        cluster < count,
        offset < cluster_size(t),
    ensures
        cluster * cluster_size(t) + offset < clusters_nodes(t, count).len(),
        clusters_nodes(t, count)[(cluster * cluster_size(t) + offset) as int] == node_for(
            t,
            id_at_offset(t, cluster as u32, offset),
        ),
    decreases count,
{
    let size = cluster_size(t);
    lemma_clusters_nodes_len(t, count);
    lemma_clusters_nodes_len(t, (count - 1) as nat);
    lemma_cluster_nodes_at(t, (count - 1) as u32, offset);
    assert((count - 1) * size + size == count * size) by (nonlinear_arith);
    if cluster == count - 1 {
    } else {
        assert(cluster * size + size <= (count - 1) * size) by (nonlinear_arith)
            requires
                cluster + 1 <= count - 1,
        ;
        lemma_clusters_nodes_at(t, (count - 1) as nat, cluster, offset);
    }
}

/// Every place among the first `count` clusters belongs to one cluster and one
/// offset in it. Returns that cluster and offset.
pub proof fn lemma_clusters_nodes_place(t: Topology, count: nat, place: nat) -> (found: (nat, nat))
    requires
        fits(t),
        count <= t.clusters,
        place < count * cluster_size(t),
    ensures
        found.0 < count,
        found.1 < cluster_size(t),
        place == found.0 * cluster_size(t) + found.1,
    decreases count,
{
    let size = cluster_size(t);
    assert(count > 0) by (nonlinear_arith)
        requires
            place < count * size,
    ;
    assert((count - 1) * size + size == count * size) by (nonlinear_arith);
    if place < (count - 1) * size {
        lemma_clusters_nodes_place(t, (count - 1) as nat, place)
    } else {
        ((count - 1) as nat, (place - (count - 1) * size) as nat)
    }
}

/// The graph holds the ZooKeeper ensemble and then, for each cluster, the
/// services of that cluster.
pub proof fn lemma_graph_size(t: Topology)
    requires
        fits(t),
    ensures
        service_graph(t).nodes.len() == t.zookeepers + t.clusters * cluster_size(t),
{
    lemma_clusters_nodes_len(t, t.clusters);
}

/// A service of the instance stands in the graph at its position, with the
/// readiness condition and the dependencies that belong to it.
pub proof fn lemma_node_at_position(t: Topology, id: ServiceId)
    requires
        fits(t),
        in_graph(t, id),
    ensures
        position_of(t, id) < service_graph(t).nodes.len(),
        service_graph(t).nodes[position_of(t, id) as int] == node_for(t, id),
{
    lemma_graph_size(t);
    match id {
        ServiceId::Zookeeper { replica } => {},
        _ => {
            let cluster = id.cluster_of().unwrap();
            let offset = offset_in_cluster(t, id);
            lemma_clusters_nodes_at(t, t.clusters, cluster as nat, offset);
            assert(id_at_offset(t, cluster, offset) == id);
        },
    }
}

/// Every place of the graph holds a service of the instance, and that service
/// stands nowhere else: `position_of` gives back the place.
pub proof fn lemma_position_of_node(t: Topology, place: nat)
    requires
        fits(t),
        place < service_graph(t).nodes.len(),
    ensures
        in_graph(t, service_graph(t).nodes[place as int].id),
        position_of(t, service_graph(t).nodes[place as int].id) == place,
        service_graph(t).nodes[place as int] == node_for(
            t,
            service_graph(t).nodes[place as int].id,
        ),
{
    lemma_graph_size(t);
    if place < t.zookeepers {
        assert(service_graph(t).nodes[place as int] == zookeeper_nodes(t)[place as int]);
    } else {
        let found = lemma_clusters_nodes_place(t, t.clusters, (place - t.zookeepers) as nat);
        lemma_clusters_nodes_at(t, t.clusters, found.0, found.1);
        lemma_cluster_nodes_at(t, found.0 as u32, found.1);
        assert(service_graph(t).nodes[place as int] == clusters_nodes(t, t.clusters)[place
            - t.zookeepers]);
    }
}

/// No service occurs twice in the graph.
pub proof fn lemma_services_are_unique(t: Topology, a: nat, b: nat)
    requires
        fits(t),
        a < service_graph(t).nodes.len(),
        b < service_graph(t).nodes.len(),
        service_graph(t).nodes[a as int].id == service_graph(t).nodes[b as int].id,
    ensures
        a == b,
{
    lemma_position_of_node(t, a);
    lemma_position_of_node(t, b);
}

/// Every edge of a service of the instance leads to a service of the instance
/// that stands earlier in the graph, and waits for the condition that this
/// service reaches when it is ready.
pub proof fn lemma_dependency_stands_earlier(t: Topology, id: ServiceId, edge: Dependency)
    requires
        fits(t),
        in_graph(t, id),
        dependencies(t, id).contains(edge),
    ensures
        in_graph(t, edge.target),
        position_of(t, edge.target) < position_of(t, id),
        edge.condition == ready_condition_of(edge.target),
{
    let size = cluster_size(t);
    let k = choose|k: int| 0 <= k < dependencies(t, id).len() && dependencies(t, id)[k] == edge;
    match id {
        ServiceId::Zookeeper { .. } => {},
        _ => {
            let cluster = id.cluster_of().unwrap();
            assert(0 <= (cluster as nat) * size) by (nonlinear_arith);
            if cluster > 0 {
                assert((cluster - 1) * size + size == cluster * size) by (nonlinear_arith);
            }
        },
    }
}

/// The graph is a start-up order: whatever a service waits for stands at an
/// earlier place of the graph.
pub proof fn lemma_graph_is_startup_order(t: Topology, place: nat, edge: Dependency)
    requires
        fits(t),
        place < service_graph(t).nodes.len(),
        service_graph(t).nodes[place as int].depends_on.contains(edge),
    ensures
        position_of(t, edge.target) < place,
        service_graph(t).nodes[position_of(t, edge.target) as int].id == edge.target,
        service_graph(t).nodes[position_of(t, edge.target) as int].ready_condition
            == edge.condition,
{
    lemma_position_of_node(t, place);
    let id = service_graph(t).nodes[place as int].id;
    lemma_dependency_stands_earlier(t, id, edge);
    lemma_node_at_position(t, edge.target);
}

/// Clusters come up one after the other. The init job and the registration
/// job of every cluster but the first wait for the proxy of the cluster
/// before; those of the first cluster wait for no other cluster's proxy: the
/// init job for no proxy at all, the registration job for its own only.
pub proof fn lemma_sequential_bootstrap(t: Topology, cluster: u32)
    requires
        fits(t),
        cluster < t.clusters,
    ensures
        service_graph(t).nodes.contains(node_for(t, ServiceId::ClusterInitJob { cluster })),
        service_graph(t).nodes.contains(
            node_for(t, ServiceId::PostClusterRegistrationJob { cluster }),
        ),
        cluster > 0 ==> node_for(t, ServiceId::ClusterInitJob { cluster }).depends_on.contains(
            healthy(ServiceId::Proxy { cluster: (cluster - 1) as u32 }),
        ),
        cluster > 0 ==> node_for(
            t,
            ServiceId::PostClusterRegistrationJob { cluster },
        ).depends_on.contains(healthy(ServiceId::Proxy { cluster: (cluster - 1) as u32 })),
        cluster == 0 ==> forall|edge: Dependency|
            #[trigger] node_for(t, ServiceId::ClusterInitJob { cluster }).depends_on.contains(edge)
                ==> !(edge.target is Proxy),
        cluster == 0 ==> forall|edge: Dependency|
            #[trigger] node_for(
                t,
                ServiceId::PostClusterRegistrationJob { cluster },
            ).depends_on.contains(edge) ==> edge.target == (ServiceId::Proxy { cluster }),
{
    let init = ServiceId::ClusterInitJob { cluster };
    let post = ServiceId::PostClusterRegistrationJob { cluster };
    lemma_node_at_position(t, init);
    lemma_node_at_position(t, post);
    if cluster > 0 {
        let edge = healthy(ServiceId::Proxy { cluster: (cluster - 1) as u32 });
        let init_edges = dependencies(t, init);
        assert(init_edges[t.zookeepers as int] == edge);
        let post_edges = dependencies(t, post);
        assert(post_edges[1] == edge);
    }
}

/// Bookies of a cluster come up one after the other. Every bookie but the first
/// waits for the bookie before it; the first waits for no bookie.
pub proof fn lemma_bookie_chain(t: Topology, cluster: u32, replica: u32)
    requires
        fits(t),
        cluster < t.clusters,
        replica < t.bookies,
    ensures
        service_graph(t).nodes.contains(node_for(t, ServiceId::Bookie { cluster, replica })),
        replica > 0 ==> node_for(t, ServiceId::Bookie { cluster, replica }).depends_on.contains(
            healthy(ServiceId::Bookie { cluster, replica: (replica - 1) as u32 }),
        ),
        replica == 0 ==> forall|edge: Dependency|
            #[trigger] node_for(t, ServiceId::Bookie { cluster, replica }).depends_on.contains(edge)
                ==> !(edge.target is Bookie),
        replica > 0 ==> forall|edge: Dependency|
            #[trigger] node_for(t, ServiceId::Bookie { cluster, replica }).depends_on.contains(edge)
                && edge.target is Bookie ==> edge.target == (ServiceId::Bookie {
                cluster,
                replica: (replica - 1) as u32,
            }),
{
    let bookie = ServiceId::Bookie { cluster, replica };
    lemma_node_at_position(t, bookie);
    if replica > 0 {
        let edge = healthy(ServiceId::Bookie { cluster, replica: (replica - 1) as u32 });
        let edges = dependencies(t, bookie);
        assert(edges[(1 + t.zookeepers) as int] == edge);
    }
}

/// The first `count` clusters own as many volumes as they have bookies.
pub proof fn lemma_volume_count(t: Topology, count: nat)
    requires
        fits(t),
        count <= t.clusters,
    ensures
        bookie_volumes(t, count).len() == count * t.bookies,
    decreases count,
{
    if count > 0 {
        lemma_volume_count(t, (count - 1) as nat);
        assert((count - 1) * t.bookies + t.bookies == count * t.bookies) by (nonlinear_arith);
    }
}

/// Each bookie of the first `count` clusters has its volume among theirs.
pub proof fn lemma_volume_of_bookie(t: Topology, count: nat, cluster: u32, replica: u32)
    requires
        fits(t),
        count <= t.clusters,
        cluster < count,
        replica < t.bookies,
    ensures
        bookie_volumes(t, count).contains(Volume { cluster, replica }),
    decreases count,
{
    let before = bookie_volumes(t, (count - 1) as nat);
    let last = cluster_volumes(t, (count - 1) as u32);
    if cluster == count - 1 {
        assert((before + last)[before.len() + replica] == last[replica as int]);
    } else {
        lemma_volume_of_bookie(t, (count - 1) as nat, cluster, replica);
        let k = choose|k: int| 0 <= k < before.len() && before[k] == (Volume { cluster, replica });
        assert((before + last)[k] == before[k]);
    }
}

/// Each volume of the first `count` clusters belongs to a bookie of one of them.
pub proof fn lemma_volumes_are_bookies(t: Topology, count: nat, i: int)
    requires
        fits(t),
        count <= t.clusters,
        0 <= i < bookie_volumes(t, count).len(),
    ensures
        bookie_volumes(t, count)[i].cluster < count,
        bookie_volumes(t, count)[i].replica < t.bookies,
    decreases count,
{
    let before = bookie_volumes(t, (count - 1) as nat);
    if i < before.len() {
        lemma_volumes_are_bookies(t, (count - 1) as nat, i);
    }
}

/// The graph declares one volume for each bookie of each cluster and no
/// other: as many as the clusters have bookies altogether.
pub proof fn lemma_one_volume_per_bookie(t: Topology)
    requires
        fits(t),
    ensures
        service_graph(t).volumes.len() == t.clusters * t.bookies,
        forall|cluster: u32, replica: u32|
            in_graph(t, ServiceId::Bookie { cluster, replica }) ==> #[trigger] service_graph(
                t,
            ).volumes.contains(Volume { cluster, replica }),
        forall|i: int|
            0 <= i < service_graph(t).volumes.len() ==> in_graph(
                t,
                ServiceId::Bookie {
                    cluster: (#[trigger] service_graph(t).volumes[i]).cluster,
                    replica: service_graph(t).volumes[i].replica,
                },
            ),
{
    lemma_volume_count(t, t.clusters);
    assert forall|cluster: u32, replica: u32|
        in_graph(t, ServiceId::Bookie { cluster, replica }) implies #[trigger] service_graph(
        t,
    ).volumes.contains(Volume { cluster, replica }) by {
        lemma_volume_of_bookie(t, t.clusters, cluster, replica);
    }
    assert forall|i: int| 0 <= i < service_graph(t).volumes.len() implies in_graph(
        t,
        ServiceId::Bookie {
            cluster: (#[trigger] service_graph(t).volumes[i]).cluster,
            replica: service_graph(t).volumes[i].replica,
        },
    ) by {
        lemma_volumes_are_bookies(t, t.clusters, i);
    }
}

} // verus!
