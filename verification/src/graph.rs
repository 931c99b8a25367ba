//! The service graph of an instance: every service with the services it
//! waits for, in an order in which they can be started.

use vstd::prelude::*;
use crate::instance_config::{PulsarInstanceConfig, Topology};
use crate::ports::{allocate, assignment, PortAssignment};
use crate::quorum::{quorum, quorum_for, QuorumConfig};
use crate::service::{
    network_name, network_name_of, ready_condition, ready_condition_of, service_name,
    service_name_of, Condition, Dependency, ServiceId, Volume,
};

verus! {

/// One service of the graph.
#[derive(Clone, Debug, PartialEq)]
pub struct ServiceNode {
    pub id: ServiceId,
    /// The condition that tells that this service is ready.
    pub ready_condition: Condition,
    /// The services that have to be ready before this one starts.
    pub depends_on: Vec<Dependency>,
    /// The managed-ledger quorum of the cluster; brokers carry it.
    pub quorum: Option<QuorumConfig>,
    /// The host ports that the service is published on; proxies carry them.
    pub ports: Option<PortAssignment>,
}

/// The mathematical content of a [`ServiceNode`].
pub struct NodeView {
    pub id: ServiceId,
    pub ready_condition: Condition,
    pub depends_on: Seq<Dependency>,
    pub quorum: Option<QuorumConfig>,
    pub ports: Option<PortAssignment>,
}

impl View for ServiceNode {
    type V = NodeView;

    open spec fn view(&self) -> NodeView {
        NodeView {
            id: self.id,
            ready_condition: self.ready_condition,
            depends_on: self.depends_on@,
            quorum: self.quorum,
            ports: self.ports,
        }
    }
}

/// The services of an instance together with the volumes and the network
/// that they use.
#[derive(Clone, Debug, PartialEq)]
pub struct ServiceGraph {
    /// The configuration that the graph was built from.
    pub config: PulsarInstanceConfig,
    /// Every service, each one behind the services it waits for.
    pub nodes: Vec<ServiceNode>,
    /// The volumes that keep the data of the bookies, one for each bookie.
    pub volumes: Vec<Volume>,
    /// The name of the network that the services share.
    pub network: String,
}

/// The mathematical content of a [`ServiceGraph`].
pub struct GraphView {
    pub topology: Topology,
    pub nodes: Seq<NodeView>,
    pub volumes: Seq<Volume>,
    pub network: Seq<char>,
}

/// The views of a sequence of nodes.
pub open spec fn node_views(nodes: Seq<ServiceNode>) -> Seq<NodeView> {
    Seq::new(nodes.len(), |i: int| nodes[i]@)
}

impl View for ServiceGraph {
    type V = GraphView;

    open spec fn view(&self) -> GraphView {
        GraphView {
            topology: self.config@,
            nodes: node_views(self.nodes@),
            volumes: self.volumes@,
            network: self.network@,
        }
    }
}

impl ServiceNode {
    /// The name under which the service stands in the descriptor.
    pub fn name(&self) -> (name: String)
        ensures
            name@ == service_name_of(self.id),
    {
        service_name(&self.id)
    }
}

impl ServiceGraph {
    /// Whether the graph is the one that belongs to its configuration.
    pub open spec fn well_formed(&self) -> bool {
        self@ == service_graph(self.config@)
    }
}

/// The edge that waits for `target` to pass its health probe.
pub open spec fn healthy(target: ServiceId) -> Dependency {
    Dependency { target, condition: Condition::HealthCheckPassed }
}

/// Edges to every replica of the ZooKeeper ensemble.
pub open spec fn zookeeper_dependencies(zookeepers: nat) -> Seq<Dependency> {
    Seq::new(zookeepers, |i: int| healthy(ServiceId::Zookeeper { replica: i as u32 }))
}

/// Edges to every bookie of a cluster.
pub open spec fn bookie_dependencies(cluster: u32, bookies: nat) -> Seq<Dependency> {
    Seq::new(bookies, |i: int| healthy(ServiceId::Bookie { cluster, replica: i as u32 }))
}

/// Edges to every broker of a cluster.
pub open spec fn broker_dependencies(cluster: u32, brokers: nat) -> Seq<Dependency> {
    Seq::new(brokers, |i: int| healthy(ServiceId::Broker { cluster, replica: i as u32 }))
}

/// The edge to the proxy of the cluster before this one; the first cluster has none.
pub open spec fn previous_proxy_dependencies(cluster: u32) -> Seq<Dependency> {
    if cluster == 0 {
        Seq::empty()
    } else {
        seq![healthy(ServiceId::Proxy { cluster: (cluster - 1) as u32 })]
    }
}

/// The edge to the bookie before this one in its cluster; the first bookie has none.
pub open spec fn previous_bookie_dependencies(cluster: u32, replica: u32) -> Seq<Dependency> {
    if replica == 0 {
        Seq::empty()
    } else {
        seq![healthy(ServiceId::Bookie { cluster, replica: (replica - 1) as u32 })]
    }
}

/// The edge that waits for the init job of a cluster to finish.
pub open spec fn init_job_dependency(cluster: u32) -> Dependency {
    Dependency {
        target: ServiceId::ClusterInitJob { cluster },
        condition: Condition::ExitedSuccessfully,
    }
}

/// The services that a service waits for.
pub open spec fn dependencies(t: Topology, id: ServiceId) -> Seq<Dependency> {
    match id {
        ServiceId::Zookeeper { .. } => Seq::empty(),
        ServiceId::ClusterInitJob { cluster } => zookeeper_dependencies(t.zookeepers)
            + previous_proxy_dependencies(cluster),
        ServiceId::Bookie { cluster, replica } => seq![init_job_dependency(cluster)]
            + zookeeper_dependencies(t.zookeepers) + previous_bookie_dependencies(cluster, replica),
        ServiceId::Broker { cluster, .. } => zookeeper_dependencies(t.zookeepers)
            + bookie_dependencies(cluster, t.bookies),
        ServiceId::Proxy { cluster } => zookeeper_dependencies(t.zookeepers) + broker_dependencies(
            cluster,
            t.brokers,
        ),
        ServiceId::PostClusterRegistrationJob { cluster } => seq![
            healthy(ServiceId::Proxy { cluster }),
        ] + previous_proxy_dependencies(cluster),
    }
}

/// The node that stands for a service in the graph of `t`.
pub open spec fn node_for(t: Topology, id: ServiceId) -> NodeView {
    NodeView {
        id,
        ready_condition: ready_condition_of(id),
        depends_on: dependencies(t, id),
        quorum: if id is Broker {
            Some(quorum_for(t.bookies))
        } else {
            None
        },
        ports: match id {
            ServiceId::Proxy { cluster } => Some(assignment(cluster)),
            _ => None,
        },
    }
}

/// The nodes of the ZooKeeper ensemble.
pub open spec fn zookeeper_nodes(t: Topology) -> Seq<NodeView> {
    Seq::new(t.zookeepers, |i: int| node_for(t, ServiceId::Zookeeper { replica: i as u32 }))
}

/// The first `count` bookies of a cluster.
pub open spec fn bookie_nodes(t: Topology, cluster: u32, count: nat) -> Seq<NodeView> {
    Seq::new(count, |i: int| node_for(t, ServiceId::Bookie { cluster, replica: i as u32 }))
}

/// The first `count` brokers of a cluster.
pub open spec fn broker_nodes(t: Topology, cluster: u32, count: nat) -> Seq<NodeView> {
    Seq::new(count, |i: int| node_for(t, ServiceId::Broker { cluster, replica: i as u32 }))
}

/// The nodes of one cluster: init job, bookies, brokers, proxy, registration job.
pub open spec fn cluster_nodes(t: Topology, cluster: u32) -> Seq<NodeView> {
    seq![node_for(t, ServiceId::ClusterInitJob { cluster })] + bookie_nodes(t, cluster, t.bookies)
        + broker_nodes(t, cluster, t.brokers) + seq![
        node_for(t, ServiceId::Proxy { cluster }),
        node_for(t, ServiceId::PostClusterRegistrationJob { cluster }),
    ]
}

/// The nodes of the first `count` clusters, cluster after cluster.
pub open spec fn clusters_nodes(t: Topology, count: nat) -> Seq<NodeView>
    decreases count,
{
    if count == 0 {
        Seq::empty()
    } else {
        clusters_nodes(t, (count - 1) as nat) + cluster_nodes(t, (count - 1) as u32)
    }
}

/// The volumes of one cluster: one for each of its bookies.
pub open spec fn cluster_volumes(t: Topology, cluster: u32) -> Seq<Volume> {
    Seq::new(t.bookies, |i: int| Volume { cluster, replica: i as u32 })
}

/// The volumes of the first `count` clusters, cluster after cluster.
pub open spec fn bookie_volumes(t: Topology, count: nat) -> Seq<Volume>
    decreases count,
{
    if count == 0 {
        Seq::empty()
    } else {
        bookie_volumes(t, (count - 1) as nat) + cluster_volumes(t, (count - 1) as u32)
    }
}

/// The service graph of a configuration: the ZooKeeper ensemble first, then
/// cluster after cluster.
pub open spec fn service_graph(t: Topology) -> GraphView {
    GraphView {
        topology: t,
        nodes: zookeeper_nodes(t) + clusters_nodes(t, t.clusters),
        volumes: bookie_volumes(t, t.clusters),
        network: network_name_of(t.name),
    }
}

fn push_zookeeper_edges(edges: &mut Vec<Dependency>, zookeepers: u32)
    ensures
        final(edges)@ == old(edges)@ + zookeeper_dependencies(zookeepers as nat),
{
    let mut i: u32 = 0;
    while i < zookeepers
        invariant
            i <= zookeepers,
            edges@ == old(edges)@ + zookeeper_dependencies(i as nat),
        decreases zookeepers - i,
    {
        edges.push(
            Dependency {
                target: ServiceId::Zookeeper { replica: i },
                condition: Condition::HealthCheckPassed,
            },
        );
        i = i + 1;
    }
}

fn push_bookie_edges(edges: &mut Vec<Dependency>, cluster: u32, bookies: u32)
    ensures
        final(edges)@ == old(edges)@ + bookie_dependencies(cluster, bookies as nat),
{
    let mut i: u32 = 0;
    while i < bookies
        invariant
            i <= bookies,
            edges@ == old(edges)@ + bookie_dependencies(cluster, i as nat),
        decreases bookies - i,
    {
        edges.push(
            Dependency {
                target: ServiceId::Bookie { cluster, replica: i },
                condition: Condition::HealthCheckPassed,
            },
        );
        i = i + 1;
    }
}

fn push_broker_edges(edges: &mut Vec<Dependency>, cluster: u32, brokers: u32)
    ensures
        final(edges)@ == old(edges)@ + broker_dependencies(cluster, brokers as nat),
{
    let mut i: u32 = 0;
    while i < brokers
        invariant
            i <= brokers,
            edges@ == old(edges)@ + broker_dependencies(cluster, i as nat),
        decreases brokers - i,
    {
        edges.push(
            Dependency {
                target: ServiceId::Broker { cluster, replica: i },
                condition: Condition::HealthCheckPassed,
            },
        );
        i = i + 1;
    }
}

fn push_previous_proxy_edge(edges: &mut Vec<Dependency>, cluster: u32)
    ensures
        final(edges)@ == old(edges)@ + previous_proxy_dependencies(cluster),
{
    if cluster > 0 {
        edges.push(
            Dependency {
                target: ServiceId::Proxy { cluster: cluster - 1 },
                condition: Condition::HealthCheckPassed,
            },
        );
    }
}

/// Lists the services that a service waits for.
pub fn service_dependencies(args: &PulsarInstanceConfig, id: &ServiceId) -> (edges: Vec<Dependency>)
    ensures
        edges@ == dependencies(args@, *id),
{
    let mut edges: Vec<Dependency> = Vec::new();
    match id {
        ServiceId::Zookeeper { .. } => {},
        ServiceId::ClusterInitJob { cluster } => {
            push_zookeeper_edges(&mut edges, args.num_zookeepers);
            push_previous_proxy_edge(&mut edges, *cluster);
        },
        ServiceId::Bookie { cluster, replica } => {
            edges.push(
                Dependency {
                    target: ServiceId::ClusterInitJob { cluster: *cluster },
                    condition: Condition::ExitedSuccessfully,
                },
            );
            push_zookeeper_edges(&mut edges, args.num_zookeepers);
            if *replica > 0 {
                edges.push(
                    Dependency {
                        target: ServiceId::Bookie { cluster: *cluster, replica: *replica - 1 },
                        condition: Condition::HealthCheckPassed,
                    },
                );
            }
        },
        ServiceId::Broker { cluster, .. } => {
            push_zookeeper_edges(&mut edges, args.num_zookeepers);
            push_bookie_edges(&mut edges, *cluster, args.num_bookies);
        },
        ServiceId::Proxy { cluster } => {
            push_zookeeper_edges(&mut edges, args.num_zookeepers);
            push_broker_edges(&mut edges, *cluster, args.num_brokers);
        },
        ServiceId::PostClusterRegistrationJob { cluster } => {
            edges.push(
                Dependency {
                    target: ServiceId::Proxy { cluster: *cluster },
                    condition: Condition::HealthCheckPassed,
                },
            );
            push_previous_proxy_edge(&mut edges, *cluster);
        },
    }
    edges
}

/// Builds the node that stands for a service.
pub fn service_node(args: &PulsarInstanceConfig, id: ServiceId) -> (node: ServiceNode)
    ensures
        node@ == node_for(args@, id),
{
    let depends_on: Vec<Dependency> = service_dependencies(args, &id);
    let quorum: Option<QuorumConfig> = match id {
        ServiceId::Broker { .. } => Some(quorum(args.num_bookies)),
        _ => None,
    };
    let ports: Option<PortAssignment> = match id {
        ServiceId::Proxy { cluster } => Some(allocate(cluster)),
        _ => None,
    };
    ServiceNode { id, ready_condition: ready_condition(&id), depends_on, quorum, ports }
}

/// Appends the nodes of one cluster to `nodes`.
pub fn push_cluster_nodes(nodes: &mut Vec<ServiceNode>, args: &PulsarInstanceConfig, cluster: u32)
    ensures
        node_views(final(nodes)@) == node_views(old(nodes)@) + cluster_nodes(args@, cluster),
{
    let ghost t: Topology = args@;
    let ghost before: Seq<NodeView> = node_views(nodes@);
    nodes.push(service_node(args, ServiceId::ClusterInitJob { cluster }));
    let ghost head: Seq<NodeView> = before + seq![
        node_for(t, ServiceId::ClusterInitJob { cluster }),
    ];
    assert(node_views(nodes@) =~= head);
    let mut i: u32 = 0;
    while i < args.num_bookies
        invariant
            i <= args.num_bookies,
            t == args@,
            node_views(nodes@) == head + bookie_nodes(t, cluster, i as nat),
        decreases args.num_bookies - i,
    {
        let ghost sofar: Seq<NodeView> = node_views(nodes@);
        let node: ServiceNode = service_node(args, ServiceId::Bookie { cluster, replica: i });
        nodes.push(node);
        assert(node_views(nodes@) =~= sofar.push(
            node_for(t, ServiceId::Bookie { cluster, replica: i }),
        ));
        assert(node_views(nodes@) =~= head + bookie_nodes(t, cluster, (i + 1) as nat));
        i = i + 1;
    }
    let ghost with_bookies: Seq<NodeView> = head + bookie_nodes(t, cluster, t.bookies);
    let mut j: u32 = 0;
    while j < args.num_brokers
        invariant
            j <= args.num_brokers,
            t == args@,
            node_views(nodes@) == with_bookies + broker_nodes(t, cluster, j as nat),
        decreases args.num_brokers - j,
    {
        let ghost sofar: Seq<NodeView> = node_views(nodes@);
        let node: ServiceNode = service_node(args, ServiceId::Broker { cluster, replica: j });
        nodes.push(node);
        assert(node_views(nodes@) =~= sofar.push(
            node_for(t, ServiceId::Broker { cluster, replica: j }),
        ));
        assert(node_views(nodes@) =~= with_bookies + broker_nodes(t, cluster, (j + 1) as nat));
        j = j + 1;
    }
    let ghost with_brokers: Seq<NodeView> = node_views(nodes@);
    nodes.push(service_node(args, ServiceId::Proxy { cluster }));
    nodes.push(service_node(args, ServiceId::PostClusterRegistrationJob { cluster }));
    assert(node_views(nodes@) =~= with_brokers + seq![
        node_for(t, ServiceId::Proxy { cluster }),
        node_for(t, ServiceId::PostClusterRegistrationJob { cluster }),
    ]);
    assert(node_views(nodes@) =~= before + cluster_nodes(t, cluster));
}

/// Builds the service graph of an instance. The configuration is taken as
/// it stands: whether it meets the rules is for the caller to check, as
/// `generate_template` does before it builds anything.
pub fn build_graph(args: &PulsarInstanceConfig) -> (graph: ServiceGraph)
    ensures
        graph@ == service_graph(args@),
        graph.well_formed(),
{
    let ghost t: Topology = args@;
    let mut nodes: Vec<ServiceNode> = Vec::new();
    let mut volumes: Vec<Volume> = Vec::new();
    let mut i: u32 = 0;
    assert(node_views(nodes@) =~= zookeeper_nodes(t).take(0));
    while i < args.num_zookeepers
        invariant
            i <= args.num_zookeepers,
            t == args@,
            node_views(nodes@) == zookeeper_nodes(t).take(i as int),
        decreases args.num_zookeepers - i,
    {
        let ghost sofar: Seq<NodeView> = node_views(nodes@);
        let node: ServiceNode = service_node(args, ServiceId::Zookeeper { replica: i });
        nodes.push(node);
        assert(node_views(nodes@) =~= sofar.push(
            node_for(t, ServiceId::Zookeeper { replica: i }),
        ));
        assert(node_views(nodes@) =~= zookeeper_nodes(t).take(i + 1));
        i = i + 1;
    }
    assert(zookeeper_nodes(t).take(t.zookeepers as int) =~= zookeeper_nodes(t));
    let mut c: u32 = 0;
    assert(node_views(nodes@) =~= zookeeper_nodes(t) + clusters_nodes(t, 0));
    while c < args.num_clusters
        invariant
            c <= args.num_clusters,
            t == args@,
            node_views(nodes@) == zookeeper_nodes(t) + clusters_nodes(t, c as nat),
            volumes@ == bookie_volumes(t, c as nat),
        decreases args.num_clusters - c,
    {
        push_cluster_nodes(&mut nodes, args, c);
        assert(node_views(nodes@) =~= zookeeper_nodes(t) + clusters_nodes(t, (c + 1) as nat));
        let ghost volumes_before: Seq<Volume> = volumes@;
        let mut b: u32 = 0;
        while b < args.num_bookies
            invariant
                b <= args.num_bookies,
                t == args@,
                volumes@ == volumes_before + cluster_volumes(t, c).take(b as int),
            decreases args.num_bookies - b,
        {
            volumes.push(Volume { cluster: c, replica: b });
            assert(volumes@ =~= volumes_before + cluster_volumes(t, c).take(b + 1));
            b = b + 1;
        }
        assert(cluster_volumes(t, c).take(t.bookies as int) =~= cluster_volumes(t, c));
        c = c + 1;
    }
    let config = PulsarInstanceConfig {
        name: args.name.clone(),
        pulsar_version: args.pulsar_version.clone(),
        num_clusters: args.num_clusters,
        num_brokers: args.num_brokers,
        num_bookies: args.num_bookies,
        num_zookeepers: args.num_zookeepers,
        with_dekaf: args.with_dekaf,
    };
    let network: String = network_name(args.name.as_str());
    ServiceGraph { config, nodes, volumes, network }
}

} // verus!
