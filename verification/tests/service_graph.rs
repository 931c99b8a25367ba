use puls::graph::{build_graph, service_dependencies, service_node, ServiceGraph};
use puls::instance_config::PulsarInstanceConfig;
use puls::ports::PortAssignment;
use puls::quorum::QuorumConfig;
use puls::service::{
    cluster_name, network_name, ready_condition, service_name, volume_name, Condition,
    Dependency, ServiceId, ServiceKind, Volume,
};

fn topology(clusters: u32, zookeepers: u32, bookies: u32, brokers: u32) -> PulsarInstanceConfig {
    PulsarInstanceConfig {
        name: "t1".to_string(),
        pulsar_version: "3.2.2".to_string(),
        num_clusters: clusters,
        num_brokers: brokers,
        num_bookies: bookies,
        num_zookeepers: zookeepers,
        with_dekaf: false,
    }
}

fn healthy(target: ServiceId) -> Dependency {
    Dependency { target, condition: Condition::HealthCheckPassed }
}

fn count(graph: &ServiceGraph, kind: ServiceKind) -> usize {
    graph.nodes.iter().filter(|node| node.id.kind() == kind).count()
}

fn edges_of(graph: &ServiceGraph, id: ServiceId) -> Vec<Dependency> {
    let found: Vec<_> = graph.nodes.iter().filter(|node| node.id == id).collect();
    assert_eq!(found.len(), 1);
    found[0].depends_on.clone()
}

#[test]
fn smallest_instance_has_one_service_of_each_kind() {
    let graph = build_graph(&topology(1, 1, 1, 1));
    assert_eq!(graph.nodes.len(), 6);
    assert_eq!(count(&graph, ServiceKind::Zookeeper), 1);
    assert_eq!(count(&graph, ServiceKind::ClusterInitJob), 1);
    assert_eq!(count(&graph, ServiceKind::Bookie), 1);
    assert_eq!(count(&graph, ServiceKind::Broker), 1);
    assert_eq!(count(&graph, ServiceKind::Proxy), 1);
    assert_eq!(count(&graph, ServiceKind::PostClusterRegistrationJob), 1);
    assert_eq!(graph.volumes, vec![Volume { cluster: 0, replica: 0 }]);
    assert_eq!(graph.network, "pulsar-net-t1");
    let broker = edges_of(&graph, ServiceId::Broker { cluster: 0, replica: 0 });
    assert!(broker.contains(&healthy(ServiceId::Bookie { cluster: 0, replica: 0 })));
    let bookie = edges_of(&graph, ServiceId::Bookie { cluster: 0, replica: 0 });
    assert!(bookie.contains(&Dependency {
        target: ServiceId::ClusterInitJob { cluster: 0 },
        condition: Condition::ExitedSuccessfully,
    }));
}

#[test]
fn smallest_instance_lists_its_services_in_start_order() {
    let graph = build_graph(&topology(1, 1, 1, 1));
    let ids: Vec<ServiceId> = graph.nodes.iter().map(|node| node.id).collect();
    assert_eq!(
        ids,
        vec![
            ServiceId::Zookeeper { replica: 0 },
            ServiceId::ClusterInitJob { cluster: 0 },
            ServiceId::Bookie { cluster: 0, replica: 0 },
            ServiceId::Broker { cluster: 0, replica: 0 },
            ServiceId::Proxy { cluster: 0 },
            ServiceId::PostClusterRegistrationJob { cluster: 0 },
        ]
    );
}

#[test]
fn three_clusters_of_five_bookies_have_capped_quorums() {
    let graph = build_graph(&topology(3, 1, 5, 2));
    let capped = QuorumConfig { ensemble_size: 3, write_quorum: 3, ack_quorum: 3 };
    let mut brokers = 0;
    for node in graph.nodes.iter() {
        match node.id {
            ServiceId::Broker { .. } => {
                assert_eq!(node.quorum, Some(capped));
                brokers += 1;
            }
            _ => assert_eq!(node.quorum, None),
        }
    }
    assert_eq!(brokers, 6);
    let init = edges_of(&graph, ServiceId::ClusterInitJob { cluster: 2 });
    assert!(init.contains(&healthy(ServiceId::Proxy { cluster: 1 })));
    assert_eq!(graph.volumes.len(), 15);
}

#[test]
fn jobs_wait_for_the_proxy_of_the_cluster_before() {
    let graph = build_graph(&topology(4, 2, 1, 1));
    for c in 1u32..4 {
        let awaited = healthy(ServiceId::Proxy { cluster: c - 1 });
        assert!(edges_of(&graph, ServiceId::ClusterInitJob { cluster: c }).contains(&awaited));
        assert!(
            edges_of(&graph, ServiceId::PostClusterRegistrationJob { cluster: c }).contains(&awaited)
        );
    }
    let first_init = edges_of(&graph, ServiceId::ClusterInitJob { cluster: 0 });
    assert_eq!(
        first_init,
        vec![healthy(ServiceId::Zookeeper { replica: 0 }), healthy(ServiceId::Zookeeper { replica: 1 })]
    );
    let first_post = edges_of(&graph, ServiceId::PostClusterRegistrationJob { cluster: 0 });
    assert_eq!(first_post, vec![healthy(ServiceId::Proxy { cluster: 0 })]);
}

#[test]
fn bookies_of_a_cluster_form_a_chain() {
    let graph = build_graph(&topology(2, 1, 4, 1));
    for c in 0u32..2 {
        for i in 0u32..4 {
            let edges = edges_of(&graph, ServiceId::Bookie { cluster: c, replica: i });
            let bookies: Vec<Dependency> = edges
                .iter()
                .filter(|edge| edge.target.kind() == ServiceKind::Bookie)
                .copied()
                .collect();
            if i == 0 {
                assert!(bookies.is_empty());
            } else {
                assert_eq!(bookies, vec![healthy(ServiceId::Bookie { cluster: c, replica: i - 1 })]);
            }
        }
    }
}

#[test]
fn one_volume_for_each_bookie() {
    let graph = build_graph(&topology(3, 1, 2, 1));
    assert_eq!(
        graph.volumes,
        vec![
            Volume { cluster: 0, replica: 0 },
            Volume { cluster: 0, replica: 1 },
            Volume { cluster: 1, replica: 0 },
            Volume { cluster: 1, replica: 1 },
            Volume { cluster: 2, replica: 0 },
            Volume { cluster: 2, replica: 1 },
        ]
    );
    assert_eq!(graph.volumes.len(), count(&graph, ServiceKind::Bookie));
}

#[test]
fn graph_size_follows_the_counts() {
    let graph = build_graph(&topology(3, 2, 4, 5));
    assert_eq!(graph.nodes.len(), 2 + 3 * (4 + 5 + 3));
    let none = build_graph(&topology(0, 0, 0, 0));
    assert!(none.nodes.is_empty());
    assert!(none.volumes.is_empty());
}

#[test]
fn every_edge_leads_to_an_earlier_service_that_reaches_the_condition() {
    let graph = build_graph(&topology(3, 3, 3, 2));
    for (place, node) in graph.nodes.iter().enumerate() {
        assert_eq!(node.ready_condition, ready_condition(&node.id));
        for edge in node.depends_on.iter() {
            let target = graph.nodes.iter().position(|other| other.id == edge.target);
            let target = target.unwrap();
            assert!(target < place);
            assert_eq!(graph.nodes[target].ready_condition, edge.condition);
        }
    }
}

#[test]
fn no_service_occurs_twice() {
    let graph = build_graph(&topology(3, 3, 3, 2));
    for (i, a) in graph.nodes.iter().enumerate() {
        for (j, b) in graph.nodes.iter().enumerate() {
            assert_eq!(a.id == b.id, i == j);
            assert_eq!(service_name(&a.id) == service_name(&b.id), i == j);
        }
    }
}

#[test]
fn proxies_carry_the_ports_of_their_cluster() {
    let graph = build_graph(&topology(3, 1, 1, 1));
    for node in graph.nodes.iter() {
        match node.id {
            ServiceId::Proxy { cluster } => assert_eq!(
                node.ports,
                Some(PortAssignment {
                    cluster_index: cluster,
                    admin_port: u64::from(cluster) * 10000 + 8080,
                    data_port: u64::from(cluster) * 10000 + 6650,
                })
            ),
            _ => assert_eq!(node.ports, None),
        }
    }
}

#[test]
fn brokers_wait_for_every_bookie_and_proxies_for_every_broker() {
    let args = topology(2, 2, 3, 2);
    let broker = service_dependencies(&args, &ServiceId::Broker { cluster: 1, replica: 0 });
    assert_eq!(
        broker,
        vec![
            healthy(ServiceId::Zookeeper { replica: 0 }),
            healthy(ServiceId::Zookeeper { replica: 1 }),
            healthy(ServiceId::Bookie { cluster: 1, replica: 0 }),
            healthy(ServiceId::Bookie { cluster: 1, replica: 1 }),
            healthy(ServiceId::Bookie { cluster: 1, replica: 2 }),
        ]
    );
    let proxy = service_dependencies(&args, &ServiceId::Proxy { cluster: 1 });
    assert_eq!(
        proxy,
        vec![
            healthy(ServiceId::Zookeeper { replica: 0 }),
            healthy(ServiceId::Zookeeper { replica: 1 }),
            healthy(ServiceId::Broker { cluster: 1, replica: 0 }),
            healthy(ServiceId::Broker { cluster: 1, replica: 1 }),
        ]
    );
    assert!(service_dependencies(&args, &ServiceId::Zookeeper { replica: 1 }).is_empty());
}

#[test]
fn ready_conditions_by_kind() {
    let args = topology(1, 1, 1, 1);
    assert_eq!(
        service_node(&args, ServiceId::Zookeeper { replica: 0 }).ready_condition,
        Condition::HealthCheckPassed
    );
    assert_eq!(
        service_node(&args, ServiceId::ClusterInitJob { cluster: 0 }).ready_condition,
        Condition::ExitedSuccessfully
    );
    assert_eq!(
        service_node(&args, ServiceId::PostClusterRegistrationJob { cluster: 0 }).ready_condition,
        Condition::ExitedSuccessfully
    );
    assert_eq!(
        service_node(&args, ServiceId::Proxy { cluster: 0 }).ready_condition,
        Condition::HealthCheckPassed
    );
}

#[test]
fn identities_know_their_cluster_and_replica() {
    let bookie = ServiceId::Bookie { cluster: 3, replica: 7 };
    assert_eq!(bookie.kind(), ServiceKind::Bookie);
    assert_eq!(bookie.cluster_index(), Some(3));
    assert_eq!(bookie.replica_index(), Some(7));
    let zookeeper = ServiceId::Zookeeper { replica: 2 };
    assert_eq!(zookeeper.cluster_index(), None);
    assert_eq!(zookeeper.replica_index(), Some(2));
    let proxy = ServiceId::Proxy { cluster: 4 };
    assert_eq!(proxy.cluster_index(), Some(4));
    assert_eq!(proxy.replica_index(), None);
}

#[test]
fn nodes_know_their_names() {
    let graph = build_graph(&topology(2, 1, 1, 1));
    let names: Vec<String> = graph.nodes.iter().map(|node| node.name()).collect();
    assert_eq!(names[0], "zookeeper-0");
    assert_eq!(names[1], "pulsar-init-job-cluster-0");
    assert_eq!(names[10], "pulsar-post-cluster-create-job-cluster-1");
}

#[test]
fn names_are_made_of_kind_cluster_and_replica() {
    assert_eq!(cluster_name(0), "cluster-0");
    assert_eq!(cluster_name(12), "cluster-12");
    assert_eq!(service_name(&ServiceId::Zookeeper { replica: 10 }), "zookeeper-10");
    assert_eq!(service_name(&ServiceId::ClusterInitJob { cluster: 1 }), "pulsar-init-job-cluster-1");
    assert_eq!(service_name(&ServiceId::Bookie { cluster: 1, replica: 23 }), "bookie-cluster-1-23");
    assert_eq!(service_name(&ServiceId::Bookie { cluster: 12, replica: 3 }), "bookie-cluster-12-3");
    assert_eq!(service_name(&ServiceId::Broker { cluster: 0, replica: 0 }), "broker-cluster-0-0");
    assert_eq!(service_name(&ServiceId::Proxy { cluster: 9 }), "pulsar-proxy-cluster-9");
    assert_eq!(
        service_name(&ServiceId::PostClusterRegistrationJob { cluster: 2 }),
        "pulsar-post-cluster-create-job-cluster-2"
    );
    assert_eq!(volume_name(1, 4), "bookie-data-cluster-1-4");
    assert_eq!(network_name("default"), "pulsar-net-default");
}
