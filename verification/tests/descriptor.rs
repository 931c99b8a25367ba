use puls::docker_compose::{
    generate_bookie_template, generate_broker_template, generate_cluster_template,
    generate_instance, generate_post_cluster_create_job_template,
    generate_pulsar_init_job_template, generate_pulsar_proxy_template, generate_template,
    generate_zookeeper_template, render_graph, render_services, render_volumes,
};
use puls::graph::build_graph;
use puls::instance_config::{ConfigError, InstanceConfig, PulsarInstanceConfig};
use puls::ports::PortAssignment;
use puls::service::Volume;

fn topology(clusters: u32, zookeepers: u32, bookies: u32, brokers: u32) -> PulsarInstanceConfig {
    PulsarInstanceConfig {
        name: "t1".to_string(),
        pulsar_version: "3.2.2".to_string(),
        num_clusters: clusters,
        num_brokers: brokers,
        num_bookies: bookies,
        num_zookeepers: zookeepers,
        with_dekaf: false,
    }
}

fn declared_volumes(descriptor: &str) -> Vec<String> {
    let section = descriptor.split("\nvolumes:\n").nth(1).unwrap();
    let section = section.split("\nnetworks:\n").next().unwrap();
    section.lines().filter(|line| !line.is_empty()).map(|line| line.to_string()).collect()
}

fn declared_services(descriptor: &str) -> Vec<String> {
    let section = descriptor.split("\nvolumes:\n").next().unwrap();
    section
        .lines()
        .filter(|line| line.starts_with("    ") && !line.starts_with("     "))
        .filter(|line| !line.starts_with("    #"))
        .map(|line| line.trim().trim_end_matches(':').to_string())
        .collect()
}

#[test]
fn smallest_descriptor_is_header_services_volumes_network() {
    let args = topology(1, 1, 1, 1);
    let mut expected = String::from("version: '3'\nservices:\n");
    expected.push_str(&generate_zookeeper_template(&args, 0).unwrap());
    expected.push_str(&generate_pulsar_init_job_template(&args, 0).unwrap());
    expected.push_str(&generate_bookie_template(&args, 0, 0).unwrap());
    expected.push_str(&generate_broker_template(&args, 0, 0).unwrap());
    expected.push_str(&generate_pulsar_proxy_template(&args, 0).unwrap());
    expected.push_str(&generate_post_cluster_create_job_template(&args, 0).unwrap());
    expected.push_str("volumes:\n    bookie-data-cluster-0-0:\n");
    expected.push_str("\nnetworks:\n    pulsar-net-t1:\n        driver: bridge\n");
    assert_eq!(generate_template(&args).unwrap(), expected);
}

#[test]
fn smallest_descriptor_declares_one_service_of_each_kind() {
    let text = generate_template(&topology(1, 1, 1, 1)).unwrap();
    assert_eq!(
        declared_services(&text),
        vec![
            "zookeeper-0",
            "pulsar-init-job-cluster-0",
            "bookie-cluster-0-0",
            "broker-cluster-0-0",
            "pulsar-proxy-cluster-0",
            "pulsar-post-cluster-create-job-cluster-0",
        ]
    );
    assert_eq!(declared_volumes(&text), vec!["    bookie-data-cluster-0-0:"]);
}

#[test]
fn descriptor_is_zookeepers_then_cluster_after_cluster() {
    let args = topology(3, 2, 2, 2);
    let mut expected = String::from("version: '3'\nservices:\n");
    expected.push_str(&generate_zookeeper_template(&args, 0).unwrap());
    expected.push_str(&generate_zookeeper_template(&args, 1).unwrap());
    expected.push_str(&generate_cluster_template(&args, 0).unwrap());
    expected.push_str(&generate_cluster_template(&args, 1).unwrap());
    expected.push_str(&generate_cluster_template(&args, 2).unwrap());
    expected.push_str("volumes:\n");
    for c in 0..3 {
        for i in 0..2 {
            expected.push_str(&format!("    bookie-data-cluster-{}-{}:\n", c, i));
        }
    }
    expected.push_str("\nnetworks:\n    pulsar-net-t1:\n        driver: bridge\n");
    assert_eq!(generate_template(&args).unwrap(), expected);
}

#[test]
fn descriptor_declares_one_volume_for_each_bookie() {
    for (clusters, bookies) in [(1u32, 1u32), (1, 3), (2, 2), (3, 5), (10, 1), (10, 3)] {
        let text = generate_template(&topology(clusters, 1, bookies, 1)).unwrap();
        let volumes = declared_volumes(&text);
        assert_eq!(volumes.len() as u32, clusters * bookies);
        for c in 0..clusters {
            for i in 0..bookies {
                assert!(volumes.contains(&format!("    bookie-data-cluster-{}-{}:", c, i)));
                assert!(text.contains(&format!(
                    "            - bookie-data-cluster-{}-{}:/pulsar/data\n",
                    c, i
                )));
            }
        }
    }
}

#[test]
fn compiling_twice_gives_the_same_text() {
    let a = topology(3, 3, 3, 3);
    let b = topology(3, 3, 3, 3);
    assert_eq!(generate_template(&a).unwrap(), generate_template(&a).unwrap());
    assert_eq!(generate_template(&a).unwrap(), generate_template(&b).unwrap());
    assert_eq!(generate_template(&a).unwrap().as_bytes(), generate_template(&b).unwrap().as_bytes());
    let mut c = topology(3, 3, 3, 3);
    c.name = "bad name!".to_string();
    assert_eq!(generate_template(&c), generate_template(&c));
}

#[test]
fn a_valid_configuration_is_compiled() {
    let args = topology(2, 1, 1, 1);
    assert_eq!(generate_template(&args), Ok(render_graph(&build_graph(&args))));
    assert!(generate_template(&topology(10, 1, 1, 1)).is_ok());
}

#[test]
fn a_configuration_that_breaks_a_rule_is_not_compiled() {
    let mut args = topology(1, 1, 1, 1);
    args.name = "bad name!".to_string();
    assert_eq!(generate_template(&args), Err(ConfigError::InvalidInstanceName));
    assert_eq!(generate_template(&topology(0, 1, 1, 1)), Err(ConfigError::NoClusters));
    assert_eq!(generate_template(&topology(11, 1, 1, 1)), Err(ConfigError::TooManyClusters));
    assert_eq!(generate_template(&topology(1, 0, 1, 1)), Err(ConfigError::NoZookeepers));
    assert_eq!(generate_template(&topology(1, 1, 0, 1)), Err(ConfigError::NoBookies));
    assert_eq!(generate_template(&topology(1, 1, 1, 0)), Err(ConfigError::NoBrokers));
    assert_eq!(generate_template(&topology(0, 0, 0, 0)), Err(ConfigError::NoClusters));
}

#[test]
fn rendering_a_built_graph_is_the_template() {
    let args = topology(2, 2, 3, 1);
    let graph = build_graph(&args);
    assert_eq!(Ok(render_graph(&graph)), generate_template(&args));
    let mut expected = String::from("version: '3'\nservices:\n");
    expected.push_str(&render_services(&args, &graph.nodes));
    expected.push_str("volumes:\n");
    expected.push_str(&render_volumes(&graph.volumes));
    expected.push_str("\nnetworks:\n    pulsar-net-t1:\n        driver: bridge\n");
    assert_eq!(render_graph(&graph), expected);
}

#[test]
fn volumes_are_declared_one_on_a_line() {
    assert_eq!(render_volumes(&vec![]), "");
    assert_eq!(
        render_volumes(&vec![Volume { cluster: 0, replica: 1 }, Volume { cluster: 11, replica: 0 }]),
        "    bookie-data-cluster-0-1:\n    bookie-data-cluster-11-0:\n"
    );
}

#[test]
fn a_graph_without_services_renders_to_the_bare_sections() {
    let text = render_graph(&build_graph(&topology(0, 0, 0, 0)));
    assert_eq!(
        text,
        "version: '3'\nservices:\nvolumes:\n\nnetworks:\n    pulsar-net-t1:\n        driver: bridge\n"
    );
}

#[test]
fn version_and_name_reach_every_entry() {
    let mut args = topology(2, 2, 2, 2);
    args.name = "my_instance-2".to_string();
    args.pulsar_version = "4.0.1".to_string();
    let text = generate_template(&args).unwrap();
    let services = declared_services(&text).len();
    assert_eq!(services, 2 + 2 * 7);
    assert_eq!(text.matches("        image: apachepulsar/pulsar:4.0.1\n").count(), services);
    assert_eq!(text.matches("            - pulsar-net-my_instance-2\n").count(), services);
    assert!(text.ends_with("networks:\n    pulsar-net-my_instance-2:\n        driver: bridge\n"));
}

#[test]
fn generate_instance_reports_how_clusters_are_reached() {
    let config = InstanceConfig {
        pulsar_version: "3.2.2".to_string(),
        num_clusters: 3,
        num_brokers: 1,
        num_bookies: 5,
        num_zookeepers: 1,
        with_dekaf: true,
    };
    let output = generate_instance("t1".to_string(), config).unwrap();
    assert_eq!(output.instance_name, "t1");
    assert_eq!(output.docker_compose_template, generate_template(&topology(3, 1, 5, 1)).unwrap());
    assert_eq!(output.clusters.len(), 3);
    assert_eq!(output.clusters[0].cluster_name, "cluster-0");
    assert_eq!(output.clusters[2].cluster_name, "cluster-2");
    assert_eq!(
        output.clusters[2].ports,
        PortAssignment { cluster_index: 2, admin_port: 28080, data_port: 26650 }
    );
    assert_eq!(
        output.docker_compose_template.matches("managedLedgerDefaultEnsembleSize=3\n").count(),
        3
    );
}
