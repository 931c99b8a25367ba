//! Laws of the descriptor: how its text is made up of the entries of the
//! ZooKeeper ensemble and of the clusters, how many volumes it declares, and
//! that every probe that is waited for exists.

use vstd::prelude::*;
use crate::docker_compose::{
    compiled, compiled_cluster, compiled_entry, descriptor_text, services_text, volume_text,
    volumes_text,
};
use crate::graph::{
    cluster_nodes, clusters_nodes, dependencies, node_for, service_graph, zookeeper_nodes,
    NodeView,
};
use crate::instance_config::{validation_error, ConfigError, Topology};
use crate::ordering::{
    fits, in_graph, lemma_dependency_stands_earlier, lemma_one_volume_per_bookie,
};
use crate::render::{health_check_of, service_text};
use crate::service::{
    network_name_of, volume_name_of, Condition, Dependency, ServiceId, Volume,
};
use crate::text::{
    concat_all, decimal_digits, lemma_concat_all_append, lemma_decimal_digits_one_line,
    lemma_line_count_concat, lemma_line_count_of_lines, lemma_line_count_zero, line_count,
};

verus! {

/// The entries of two sequences of services written one behind the other
/// are the entries of the one long sequence.
pub proof fn lemma_services_text_append(t: Topology, first: Seq<NodeView>, second: Seq<NodeView>)
    ensures
        services_text(t, first + second) == services_text(t, first) + services_text(t, second),
{
    let whole = Seq::new((first + second).len(), |i: int| service_text(t, (first + second)[i]));
    let head = Seq::new(first.len(), |i: int| service_text(t, first[i]));
    let tail = Seq::new(second.len(), |i: int| service_text(t, second[i]));
    assert(whole =~= head + tail);
    lemma_concat_all_append(head, tail);
}

/// The entries of the first `count` clusters, cluster after cluster.
pub open spec fn clusters_text(t: Topology, count: nat) -> Seq<char>
    decreases count,
{
    if count == 0 {
        Seq::empty()
    } else {
        clusters_text(t, (count - 1) as nat) + services_text(
            t,
            cluster_nodes(t, (count - 1) as u32),
        )
    }
}

/// The entries of the services of the first `count` clusters are the
/// entries of each of these clusters, one cluster behind the other.
pub proof fn lemma_clusters_text(t: Topology, count: nat)
    ensures
        services_text(t, clusters_nodes(t, count)) == clusters_text(t, count),
    decreases count,
{
    if count == 0 {
        assert(Seq::new(0, |i: int| service_text(t, clusters_nodes(t, 0)[i])) =~= Seq::<
            Seq<char>,
        >::empty());
    } else {
        lemma_clusters_text(t, (count - 1) as nat);
        lemma_services_text_append(
            t,
            clusters_nodes(t, (count - 1) as nat),
            cluster_nodes(t, (count - 1) as u32),
        );
    }
}

/// The entries of the ZooKeeper ensemble, replica after replica.
pub open spec fn zookeepers_text(t: Topology) -> Seq<char> {
    concat_all(
        Seq::new(
            t.zookeepers,
            |i: int| service_text(t, node_for(t, ServiceId::Zookeeper { replica: i as u32 })),
        ),
    )
}

/// The descriptor of an instance is its heading, the entries of the
/// ZooKeeper replicas, the entries of cluster after cluster, one
/// declaration for each volume and the declaration of the network.
pub proof fn lemma_descriptor_by_cluster(t: Topology)
    ensures
        descriptor_text(service_graph(t)) == "version: '3'\nservices:\n"@ + (zookeepers_text(t)
            + clusters_text(t, t.clusters)) + "volumes:\n"@ + volumes_text(service_graph(t).volumes)
            + "\nnetworks:\n    "@ + network_name_of(t.name) + ":\n        driver: bridge\n"@,
{
    lemma_services_text_append(t, zookeeper_nodes(t), clusters_nodes(t, t.clusters));
    lemma_clusters_text(t, t.clusters);
    assert(Seq::new(zookeeper_nodes(t).len(), |i: int| service_text(t, zookeeper_nodes(t)[i]))
        =~= Seq::new(
        t.zookeepers,
        |i: int| service_text(t, node_for(t, ServiceId::Zookeeper { replica: i as u32 })),
    ));
}

/// What is compiled from a configuration that meets every rule is made up
/// of what is written for its parts: the heading, the entry of each
/// ZooKeeper replica, the entries of cluster after cluster, the volumes and
/// the network.
pub proof fn lemma_compiled_by_cluster(t: Topology)
    requires
        validation_error(t) is None,
    ensures
        compiled(t) == Ok::<Seq<char>, ConfigError>(
            "version: '3'\nservices:\n"@ + (zookeepers_text(t) + clusters_text(t, t.clusters))
                + "volumes:\n"@ + volumes_text(service_graph(t).volumes) + "\nnetworks:\n    "@
                + network_name_of(t.name) + ":\n        driver: bridge\n"@,
        ),
        forall|cluster: u32|
            cluster < t.clusters ==> #[trigger] compiled_cluster(t, cluster) == Ok::<
                Seq<char>,
                ConfigError,
            >(services_text(t, cluster_nodes(t, cluster))),
        forall|replica: u32|
            replica < t.zookeepers ==> #[trigger] compiled_entry(
                t,
                ServiceId::Zookeeper { replica },
            ) == Ok::<Seq<char>, ConfigError>(
                service_text(t, node_for(t, ServiceId::Zookeeper { replica })),
            ),
{
    lemma_descriptor_by_cluster(t);
}

/// The declaration of a volume is one line.
pub proof fn lemma_volume_text_is_one_line(volume: Volume)
    ensures
        line_count(volume_text(volume)) == 1,
        volume_text(volume).last() == '\n',
{
    reveal_strlit("    ");
    reveal_strlit("bookie-data-");
    reveal_strlit("cluster-");
    reveal_strlit("-");
    reveal_strlit(":\n");
    let c = decimal_digits(volume.cluster as nat);
    let r = decimal_digits(volume.replica as nat);
    lemma_decimal_digits_one_line(volume.cluster as nat);
    lemma_decimal_digits_one_line(volume.replica as nat);
    lemma_line_count_zero("    "@);
    lemma_line_count_zero("bookie-data-"@);
    lemma_line_count_zero("cluster-"@);
    lemma_line_count_zero("-"@);
    let end = ":\n"@;
    assert(end.drop_last() =~= seq![':']);
    lemma_line_count_zero(end.drop_last());
    assert(line_count(end) == 1);
    let cluster = "cluster-"@ + c;
    lemma_line_count_concat("cluster-"@, c);
    lemma_line_count_concat("bookie-data-"@, cluster);
    lemma_line_count_concat("bookie-data-"@ + cluster, "-"@);
    lemma_line_count_concat("bookie-data-"@ + cluster + "-"@, r);
    let name = volume_name_of(volume.cluster as nat, volume.replica as nat);
    assert(name == "bookie-data-"@ + cluster + "-"@ + r);
    lemma_line_count_concat("    "@, name);
    lemma_line_count_concat("    "@ + name, end);
}

/// A list of volume declarations holds as many lines as volumes.
pub proof fn lemma_volumes_text_lines(volumes: Seq<Volume>)
    ensures
        line_count(volumes_text(volumes)) == volumes.len(),
{
    let lines = Seq::new(volumes.len(), |i: int| volume_text(volumes[i]));
    assert forall|i: int| 0 <= i < lines.len() implies line_count(#[trigger] lines[i]) == 1 by {
        lemma_volume_text_is_one_line(volumes[i]);
    }
    lemma_line_count_of_lines(lines);
}

/// The descriptor of an instance declares exactly as many volumes as its
/// clusters have bookies altogether, each on a line of its own.
pub proof fn lemma_descriptor_declares_one_volume_per_bookie(t: Topology)
    requires
        fits(t),
    ensures
        service_graph(t).volumes.len() == t.clusters * t.bookies,
        line_count(volumes_text(service_graph(t).volumes)) == t.clusters * t.bookies,
{
    lemma_one_volume_per_bookie(t);
    lemma_volumes_text_lines(service_graph(t).volumes);
}

/// Whoever waits for a service to be healthy waits for a service that has a
/// probe, and whoever waits for a service to finish waits for a one-shot
/// job. No service only waits for another to have been started.
pub proof fn lemma_awaited_condition_can_be_reached(t: Topology, id: ServiceId, edge: Dependency)
    requires
        fits(t),
        in_graph(t, id),
        dependencies(t, id).contains(edge),
    ensures
        edge.condition == Condition::HealthCheckPassed ==> health_check_of(edge.target) is Some,
        edge.condition == Condition::ExitedSuccessfully ==> edge.target is ClusterInitJob
            || edge.target is PostClusterRegistrationJob,
        edge.condition != Condition::Started,
{
    lemma_dependency_stands_earlier(t, id, edge);
}

} // verus!
