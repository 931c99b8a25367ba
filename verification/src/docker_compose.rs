//! The Docker Compose descriptor of an instance: every service of its graph,
//! the volumes of its bookies and its network.

use vstd::prelude::*;
use crate::graph::{
    build_graph, cluster_nodes, node_for, node_views, push_cluster_nodes, service_graph,
    service_node, GraphView, NodeView, ServiceGraph, ServiceNode,
};
use crate::instance_config::{
    named_topology, validation_error, ConfigError, InstanceConfig, PulsarInstanceConfig, Topology,
    MAX_CLUSTERS,
};
use crate::ordering::in_graph;
use crate::ports::{allocate, assignment, PortAssignment};
use crate::render::{render_service, service_text};
use crate::service::{cluster_name, cluster_name_of, volume_name, volume_name_of, ServiceId, Volume};
use crate::text::{concat_all, concat_strings, lemma_string_views_push, string_views};

verus! {

/// The entries of a sequence of services, one behind the other.
pub open spec fn services_text(t: Topology, nodes: Seq<NodeView>) -> Seq<char> {
    concat_all(Seq::new(nodes.len(), |i: int| service_text(t, nodes[i])))
}

/// The declaration of one volume.
pub open spec fn volume_text(volume: Volume) -> Seq<char> {
    "    "@ + volume_name_of(volume.cluster as nat, volume.replica as nat) + ":\n"@
}

/// The declarations of a sequence of volumes, one line each.
pub open spec fn volumes_text(volumes: Seq<Volume>) -> Seq<char> {
    concat_all(Seq::new(volumes.len(), |i: int| volume_text(volumes[i])))
}

/// The descriptor of a service graph: its services in the order of the
/// graph, then its volumes, then its network.
pub open spec fn descriptor_text(g: GraphView) -> Seq<char> {
    "version: '3'\nservices:\n"@ + services_text(g.topology, g.nodes) + "volumes:\n"@
        + volumes_text(g.volumes) + "\nnetworks:\n    "@ + g.network
        + ":\n        driver: bridge\n"@
}

/// What compiling a configuration gives: the error of the first rule it
/// breaks, or else the descriptor of its service graph.
pub open spec fn compiled(t: Topology) -> Result<Seq<char>, ConfigError> {
    match validation_error(t) {
        Some(e) => Err(e),
        None => Ok(descriptor_text(service_graph(t))),
    }
}

/// Writes the entries of the given services, one behind the other.
pub fn render_services(args: &PulsarInstanceConfig, nodes: &Vec<ServiceNode>) -> (text: String)
    ensures
        text@ == services_text(args@, node_views(nodes@)),
{
    let ghost items = Seq::new(
        nodes.len() as nat,
        |i: int| service_text(args@, node_views(nodes@)[i]),
    );
    let mut entries: Vec<String> = Vec::new();
    let mut i: usize = 0;
    assert(string_views(entries@) =~= items.take(0));
    while i < nodes.len()
        invariant
            i <= nodes.len(),
            items == Seq::new(
                nodes.len() as nat,
                |i: int| service_text(args@, node_views(nodes@)[i]),
            ),
            string_views(entries@) == items.take(i as int),
        decreases nodes.len() - i,
    {
        let entry: String = render_service(args, &nodes[i]);
        proof {
            lemma_string_views_push(entries@, entry);
            assert(items.take(i + 1) =~= items.take(i as int).push(items[i as int]));
        }
        entries.push(entry);
        i = i + 1;
    }
    assert(items.take(nodes.len() as int) =~= items);
    concat_strings(&entries)
}

/// Writes the declarations of the given volumes.
pub fn render_volumes(volumes: &Vec<Volume>) -> (text: String)
    ensures
        text@ == volumes_text(volumes@),
{
    let ghost items = Seq::new(volumes.len() as nat, |i: int| volume_text(volumes@[i]));
    let mut lines: Vec<String> = Vec::new();
    let mut i: usize = 0;
    assert(string_views(lines@) =~= items.take(0));
    while i < volumes.len()
        invariant
            i <= volumes.len(),
            items == Seq::new(volumes.len() as nat, |i: int| volume_text(volumes@[i])),
            string_views(lines@) == items.take(i as int),
        decreases volumes.len() - i,
    {
        let name: String = volume_name(volumes[i].cluster, volumes[i].replica);
        let mut line: String = String::from_str("    ");
        line.append(name.as_str());
        line.append(":\n");
        proof {
            lemma_string_views_push(lines@, line);
            assert(items.take(i + 1) =~= items.take(i as int).push(items[i as int]));
        }
        lines.push(line);
        i = i + 1;
    }
    assert(items.take(volumes.len() as int) =~= items);
    concat_strings(&lines)
}

/// Serialises a service graph into its descriptor. The graph is written
/// as it stands; nothing is checked here.
pub fn render_graph(graph: &ServiceGraph) -> (text: String)
    ensures
        text@ == descriptor_text(graph@),
{
    let services: String = render_services(&graph.config, &graph.nodes);
    let volumes: String = render_volumes(&graph.volumes);
    let mut text: String = String::from_str("version: '3'\nservices:\n");
    text.append(services.as_str());
    text.append("volumes:\n");
    text.append(volumes.as_str());
    text.append("\nnetworks:\n    ");
    text.append(graph.network.as_str());
    text.append(":\n        driver: bridge\n");
    text
}

/// Why the entry of a service is not written, if it is not: the first rule
/// that the configuration breaks, or else that the configuration holds no
/// such cluster, or else that it holds no such replica.
pub open spec fn entry_error(t: Topology, id: ServiceId) -> Option<ConfigError> {
    if validation_error(t) is Some {
        validation_error(t)
    } else if id.cluster_of() matches Some(cluster) && cluster >= t.clusters {
        Some(ConfigError::NoSuchCluster)
    } else if !in_graph(t, id) {
        Some(ConfigError::NoSuchReplica)
    } else {
        None
    }
}

/// What asking for the entry of a service gives: an error, or else the
/// entry of the node that stands for the service in the graph.
pub open spec fn compiled_entry(t: Topology, id: ServiceId) -> Result<Seq<char>, ConfigError> {
    match entry_error(t, id) {
        Some(e) => Err(e),
        None => Ok(service_text(t, node_for(t, id))),
    }
}

/// What asking for the entries of a cluster gives: the error of the first
/// rule that the configuration breaks, or that it holds no such cluster, or
/// else the entries of the services of the cluster.
pub open spec fn compiled_cluster(t: Topology, cluster: u32) -> Result<Seq<char>, ConfigError> {
    match validation_error(t) {
        Some(e) => Err(e),
        None => if cluster < t.clusters {
            Ok(services_text(t, cluster_nodes(t, cluster)))
        } else {
            Err(ConfigError::NoSuchCluster)
        },
    }
}

/// Whether a result holds the text, or else the error, that is expected.
pub open spec fn gives(outcome: Result<String, ConfigError>, expected: Result<
    Seq<char>,
    ConfigError,
>) -> bool {
    match expected {
        Ok(text) => outcome matches Ok(written) && written@ == text,
        Err(e) => outcome matches Err(err) && err == e,
    }
}

/// Compiles a configuration: checks it and, if it meets every rule, builds
/// its service graph and writes the descriptor. For a configuration that
/// breaks a rule no graph is built and no text is written.
pub fn generate_template(args: &PulsarInstanceConfig) -> (outcome: Result<String, ConfigError>)
    ensures
        match compiled(args@) {
            Ok(text) => outcome matches Ok(written) && written@ == text,
            Err(e) => outcome matches Err(err) && err == e,
        },
{
    match args.validate() {
        Err(e) => Err(e),
        Ok(()) => {
            let graph: ServiceGraph = build_graph(args);
            Ok(render_graph(&graph))
        },
    }
}

/// Writes the entries of all services of one cluster (init job, bookies,
/// brokers, proxy and registration job) if the configuration meets every
/// rule and holds the cluster.
pub fn generate_cluster_template(args: &PulsarInstanceConfig, cluster_index: u32) -> (outcome:
    Result<String, ConfigError>)
    ensures
        gives(outcome, compiled_cluster(args@, cluster_index)),
{
    match args.validate() {
        Err(e) => Err(e),
        Ok(()) => {
            if cluster_index >= args.num_clusters {
                return Err(ConfigError::NoSuchCluster);
            }
            let mut nodes: Vec<ServiceNode> = Vec::new();
            assert(node_views(nodes@) =~= Seq::<NodeView>::empty());
            push_cluster_nodes(&mut nodes, args, cluster_index);
            assert(node_views(nodes@) =~= cluster_nodes(args@, cluster_index));
            Ok(render_services(args, &nodes))
        },
    }
}

/// Tells whether a configuration holds a service.
pub fn holds_service(args: &PulsarInstanceConfig, id: &ServiceId) -> (held: bool)
    ensures
        held == in_graph(args@, *id),
{
    match id {
        ServiceId::Zookeeper { replica } => *replica < args.num_zookeepers,
        ServiceId::ClusterInitJob { cluster } => *cluster < args.num_clusters,
        ServiceId::Bookie { cluster, replica } => *cluster < args.num_clusters && *replica
            < args.num_bookies,
        ServiceId::Broker { cluster, replica } => *cluster < args.num_clusters && *replica
            < args.num_brokers,
        ServiceId::Proxy { cluster } => *cluster < args.num_clusters,
        ServiceId::PostClusterRegistrationJob { cluster } => *cluster < args.num_clusters,
    }
}

/// Writes the entry of one service if the configuration meets every rule
/// and holds the service.
pub fn generate_service_template(args: &PulsarInstanceConfig, id: ServiceId) -> (outcome: Result<
    String,
    ConfigError,
>)
    ensures
        gives(outcome, compiled_entry(args@, id)),
{
    match args.validate() {
        Err(e) => Err(e),
        Ok(()) => {
            let beyond: bool = match id.cluster_index() {
                Some(cluster) => cluster >= args.num_clusters,
                None => false,
            };
            if beyond {
                Err(ConfigError::NoSuchCluster)
            } else if !holds_service(args, &id) {
                Err(ConfigError::NoSuchReplica)
            } else {
                let node: ServiceNode = service_node(args, id);
                Ok(render_service(args, &node))
            }
        },
    }
}

/// Writes the entry of a ZooKeeper replica.
pub fn generate_zookeeper_template(args: &PulsarInstanceConfig, zookeeper_index: u32) -> (outcome:
    Result<String, ConfigError>)
    ensures
        gives(outcome, compiled_entry(args@, ServiceId::Zookeeper { replica: zookeeper_index })),
{
    generate_service_template(args, ServiceId::Zookeeper { replica: zookeeper_index })
}

/// Writes the entry of the job that initialises the metadata of a cluster.
pub fn generate_pulsar_init_job_template(args: &PulsarInstanceConfig, cluster_index: u32) -> (outcome:
    Result<String, ConfigError>)
    ensures
        gives(
            outcome,
            compiled_entry(args@, ServiceId::ClusterInitJob { cluster: cluster_index }),
        ),
{
    generate_service_template(args, ServiceId::ClusterInitJob { cluster: cluster_index })
}

/// Writes the entry of a bookie.
pub fn generate_bookie_template(
    args: &PulsarInstanceConfig,
    cluster_index: u32,
    bookie_index: u32,
) -> (outcome: Result<String, ConfigError>)
    ensures
        gives(
            outcome,
            compiled_entry(
                args@,
                ServiceId::Bookie { cluster: cluster_index, replica: bookie_index },
            ),
        ),
{
    generate_service_template(
        args,
        ServiceId::Bookie { cluster: cluster_index, replica: bookie_index },
    )
}

/// Writes the entry of a broker.
pub fn generate_broker_template(
    args: &PulsarInstanceConfig,
    cluster_index: u32,
    broker_index: u32,
) -> (outcome: Result<String, ConfigError>)
    ensures
        gives(
            outcome,
            compiled_entry(
                args@,
                ServiceId::Broker { cluster: cluster_index, replica: broker_index },
            ),
        ),
{
    generate_service_template(
        args,
        ServiceId::Broker { cluster: cluster_index, replica: broker_index },
    )
}

/// Writes the entry of the proxy of a cluster, with the host ports of that
/// cluster. A cluster of index ten or more is never held by a configuration
/// that meets every rule, so no ports are written for it.
pub fn generate_pulsar_proxy_template(args: &PulsarInstanceConfig, cluster_index: u32) -> (outcome:
    Result<String, ConfigError>)
    ensures
        gives(outcome, compiled_entry(args@, ServiceId::Proxy { cluster: cluster_index })),
        cluster_index >= MAX_CLUSTERS ==> outcome is Err,
{
    generate_service_template(args, ServiceId::Proxy { cluster: cluster_index })
}

/// Writes the entry of the job that registers a cluster with its peers.
pub fn generate_post_cluster_create_job_template(
    args: &PulsarInstanceConfig,
    cluster_index: u32,
) -> (outcome: Result<String, ConfigError>)
    ensures
        gives(
            outcome,
            compiled_entry(
                args@,
                ServiceId::PostClusterRegistrationJob { cluster: cluster_index },
            ),
        ),
{
    generate_service_template(
        args,
        ServiceId::PostClusterRegistrationJob { cluster: cluster_index },
    )
}

/// How one cluster of a compiled instance is reached from the host.
#[derive(Clone, Debug, PartialEq)]
pub struct ClusterOutput {
    pub cluster_name: String,
    pub ports: PortAssignment,
}

/// The mathematical content of a [`ClusterOutput`].
pub struct ClusterOutputView {
    pub cluster_name: Seq<char>,
    pub ports: PortAssignment,
}

impl View for ClusterOutput {
    type V = ClusterOutputView;

    open spec fn view(&self) -> ClusterOutputView {
        ClusterOutputView { cluster_name: self.cluster_name@, ports: self.ports }
    }
}

/// A compiled instance: its descriptor and how its clusters are reached.
#[derive(Clone, Debug, PartialEq)]
pub struct InstanceOutput {
    pub instance_name: String,
    pub docker_compose_template: String,
    pub clusters: Vec<ClusterOutput>,
}

/// The contents of a sequence of cluster outputs.
pub open spec fn cluster_output_views(clusters: Seq<ClusterOutput>) -> Seq<ClusterOutputView> {
    Seq::new(clusters.len(), |i: int| clusters[i]@)
}

/// Name and host ports of each of the first `clusters` clusters.
pub open spec fn cluster_outputs(clusters: nat) -> Seq<ClusterOutputView> {
    Seq::new(
        clusters,
        |i: int| ClusterOutputView { cluster_name: cluster_name_of(i as nat), ports: assignment(i as u32) },
    )
}

fn list_cluster_outputs(clusters: u32) -> (outputs: Vec<ClusterOutput>)
    ensures
        cluster_output_views(outputs@) == cluster_outputs(clusters as nat),
{
    let mut outputs: Vec<ClusterOutput> = Vec::new();
    let mut i: u32 = 0;
    while i < clusters
        invariant
            i <= clusters,
            cluster_output_views(outputs@) == cluster_outputs(i as nat),
        decreases clusters - i,
    {
        let ghost before: Seq<ClusterOutputView> = cluster_output_views(outputs@);
        let output = ClusterOutput { cluster_name: cluster_name(i), ports: allocate(i) };
        outputs.push(output);
        assert(cluster_output_views(outputs@) =~= before.push(output@));
        i = i + 1;
    }
    outputs
}

/// Compiles the instance that is stored as `config` under `instance_name`.
pub fn generate_instance(instance_name: String, config: InstanceConfig) -> (outcome: Result<
    InstanceOutput,
    ConfigError,
>)
    ensures
        match compiled(named_topology(instance_name@, config)) {
            Ok(text) => outcome matches Ok(output) && output.instance_name@ == instance_name@
                && output.docker_compose_template@ == text && cluster_output_views(
                output.clusters@,
            ) == cluster_outputs(config.num_clusters as nat),
            Err(e) => outcome matches Err(err) && err == e,
        },
{
    match PulsarInstanceConfig::new(instance_name, config) {
        Err(e) => Err(e),
        Ok(args) => match generate_template(&args) {
            Err(e) => Err(e),
            Ok(docker_compose_template) => {
                let clusters: Vec<ClusterOutput> = list_cluster_outputs(args.num_clusters);
                Ok(
                    InstanceOutput {
                        instance_name: args.name,
                        docker_compose_template,
                        clusters,
                    },
                )
            },
        },
    }
}

/// Compiling is a function of what the configuration holds: two
/// configurations that hold the same give the same outcome, and with it the
/// same descriptor, character for character.
pub proof fn lemma_compile_is_deterministic(a: PulsarInstanceConfig, b: PulsarInstanceConfig)
    requires
        a@ == b@,
    ensures
        compiled(a@) == compiled(b@),
        descriptor_text(service_graph(a@)) == descriptor_text(service_graph(b@)),
{
}

/// A configuration is compiled if and only if it meets every rule.
pub proof fn lemma_compiled_iff_valid(t: Topology)
    ensures
        compiled(t) is Ok <==> validation_error(t) is None,
        compiled(t) is Err ==> validation_error(t) == Some(compiled(t)->Err_0),
{
}

/// Nothing is written for a configuration that breaks a rule: neither its
/// descriptor nor the entries of a cluster nor the entry of a service. Each
/// of them fails with the rule that is broken.
pub proof fn lemma_invalid_configuration_gives_no_text(t: Topology, cluster: u32, id: ServiceId)
    requires
        validation_error(t) is Some,
    ensures
        compiled(t) == Err::<Seq<char>, ConfigError>(validation_error(t)->Some_0),
        compiled_cluster(t, cluster) == Err::<Seq<char>, ConfigError>(
            validation_error(t)->Some_0,
        ),
        compiled_entry(t, id) == Err::<Seq<char>, ConfigError>(validation_error(t)->Some_0),
{
}

/// An entry is written for the services of the graph and for no other:
/// for a configuration that meets every rule, asking for a service gives
/// its entry exactly if the service stands in the graph.
pub proof fn lemma_entries_are_those_of_the_graph(t: Topology, id: ServiceId)
    requires
        validation_error(t) is None,
    ensures
        compiled_entry(t, id) is Ok <==> in_graph(t, id),
        in_graph(t, id) ==> compiled_entry(t, id) == Ok::<Seq<char>, ConfigError>(
            service_text(t, node_for(t, id)),
        ),
{
}

/// No host ports are written for a cluster of index ten or more: whatever
/// the configuration holds, asking for the proxy of such a cluster fails.
pub proof fn lemma_no_ports_beyond_the_single_digits(t: Topology, cluster: u32)
    requires
        cluster >= MAX_CLUSTERS,
    ensures
        compiled_entry(t, ServiceId::Proxy { cluster }) is Err,
        compiled_cluster(t, cluster) is Err,
{
}

} // verus!
