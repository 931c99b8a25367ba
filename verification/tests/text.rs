use puls::render::{
    health_check, render_depends_on, render_environment, render_health_check, render_mounts,
    render_ports, HealthCheck,
};
use puls::scripts::{
    check_resources_command, create_resources_command, init_job_command, registration_command,
    zookeeper_command,
};
use puls::service::{condition_keyword, Condition, Dependency, ServiceId};
use puls::text::{concat_strings, decimal_string, join_strings};

fn strings(words: &[&str]) -> Vec<String> {
    words.iter().map(|word| word.to_string()).collect()
}

#[test]
fn numerals_have_no_leading_zero() {
    assert_eq!(decimal_string(0), "0");
    assert_eq!(decimal_string(7), "7");
    assert_eq!(decimal_string(10), "10");
    assert_eq!(decimal_string(28080), "28080");
    assert_eq!(decimal_string(1000), "1000");
    assert_eq!(decimal_string(4294967295), "4294967295");
    assert_eq!(decimal_string(u64::MAX), "18446744073709551615");
}

#[test]
fn numerals_agree_with_the_standard_library() {
    for n in (0u64..3000).chain([65535, 65536, 99999, 100000, 123456789]) {
        assert_eq!(decimal_string(n), n.to_string());
    }
}

#[test]
fn joining_puts_the_separator_between() {
    assert_eq!(join_strings(&strings(&[]), ","), "");
    assert_eq!(join_strings(&strings(&["a"]), ","), "a");
    assert_eq!(join_strings(&strings(&["a", "b", "c"]), "; "), "a; b; c");
    assert_eq!(join_strings(&strings(&["", ""]), "-"), "-");
}

#[test]
fn concatenating_puts_nothing_between() {
    assert_eq!(concat_strings(&strings(&[])), "");
    assert_eq!(concat_strings(&strings(&["ab", "", "c"])), "abc");
}

#[test]
fn conditions_have_their_compose_words() {
    assert_eq!(condition_keyword(Condition::HealthCheckPassed), "service_healthy");
    assert_eq!(condition_keyword(Condition::ExitedSuccessfully), "service_completed_successfully");
    assert_eq!(condition_keyword(Condition::Started), "service_started");
}

#[test]
fn zookeeper_command_of_a_single_replica() {
    assert_eq!(
        zookeeper_command(1, 0),
        "bin/apply-config-from-env.py conf/zookeeper.conf && bin/apply-config-from-env.py conf/pulsar_env.sh && echo \"server.0=zookeeper-0:2888:3888\" >> /pulsar/conf/zookeeper.conf && if [ ! -f /pulsar/data/zookeeper/myid ]; then mkdir -p /pulsar/data/zookeeper && echo 0 > /pulsar/data/zookeeper/myid; fi && exec bin/pulsar zookeeper"
    );
}

#[test]
fn zookeeper_command_lists_every_member() {
    let script = zookeeper_command(3, 2);
    assert!(script.contains(
        "echo \"server.0=zookeeper-0:2888:3888\" >> /pulsar/conf/zookeeper.conf; echo \"server.1=zookeeper-1:2888:3888\" >> /pulsar/conf/zookeeper.conf; echo \"server.2=zookeeper-2:2888:3888\" >> /pulsar/conf/zookeeper.conf && if"
    ));
    assert!(script.contains("echo 2 > /pulsar/data/zookeeper/myid"));
}

#[test]
fn init_job_command_names_its_cluster() {
    assert_eq!(
        init_job_command(0),
        "bin/apply-config-from-env.py conf/pulsar_env.sh; bin/pulsar initialize-cluster-metadata --cluster cluster-0 --metadata-store zk:zookeeper-0:2181/cluster-0 --configuration-metadata-store zk:zookeeper-0:2181/cluster-0 --web-service-url http://broker-{cluster_name}:8080 --broker-service-url pulsar://broker-{custer_name}:6650"
    );
}

#[test]
fn registration_command_of_a_single_cluster() {
    let admin = "bin/pulsar-admin --admin-url http://pulsar-proxy-cluster-0:8080";
    let create = format!(
        "set +e; {a} clusters create --url http://pulsar-proxy-cluster-0:8080 --broker-url pulsar://pulsar-proxy-cluster-0:6650 cluster-0; {a} tenants create --allowed-clusters cluster-0 cluster-0-local; {a} namespaces create cluster-0-local/default; {a} tenants create --allowed-clusters cluster-0 global; {a} namespaces create global/default; {a} namespaces set-clusters --clusters cluster-0 global/default;",
        a = admin
    );
    let check = format!(
        "set -e; {a} clusters get cluster-0; {a} tenants get cluster-0-local; {a} namespaces get cluster-0-local/default; {a} tenants get global; {a} namespaces get global/default;",
        a = admin
    );
    assert_eq!(create_resources_command(1, 0), create);
    assert_eq!(check_resources_command(1, 0), check);
    assert_eq!(registration_command(1, 0), format!("{} {} echo success", create, check));
}

#[test]
fn registration_command_spans_all_clusters() {
    let script = registration_command(3, 1);
    assert!(script.contains("tenants create --allowed-clusters cluster-0,cluster-1,cluster-2 global;"));
    assert!(script.contains("namespaces set-clusters --clusters cluster-0,cluster-1,cluster-2 global/default;"));
    assert!(script.contains("tenants create --allowed-clusters cluster-1 cluster-1-local;"));
    for peer in 0..3 {
        assert!(script.contains(&format!(
            "clusters create --url http://pulsar-proxy-cluster-{p}:8080 --broker-url pulsar://pulsar-proxy-cluster-{p}:6650 cluster-{p};",
            p = peer
        )));
        assert!(script.contains(&format!("clusters get cluster-{};", peer)));
    }
    assert_eq!(script.matches("--admin-url http://pulsar-proxy-cluster-1:8080").count(), 15);
}

#[test]
fn probes_by_kind() {
    assert_eq!(
        health_check(&ServiceId::Bookie { cluster: 0, replica: 0 }),
        Some(HealthCheck {
            probe: "[\"CMD\", \"/pulsar/bin/bookkeeper\", \"shell\", \"bookiesanity\"]",
            interval_seconds: 10,
            timeout_seconds: 30,
            retries: 30,
            start_period_seconds: Some(60),
        })
    );
    assert_eq!(
        health_check(&ServiceId::Zookeeper { replica: 0 }),
        Some(HealthCheck {
            probe: "[\"CMD\", \"bin/pulsar-zookeeper-ruok.sh\"]",
            interval_seconds: 5,
            timeout_seconds: 5,
            retries: 10,
            start_period_seconds: None,
        })
    );
    assert_eq!(health_check(&ServiceId::ClusterInitJob { cluster: 0 }), None);
    assert_eq!(health_check(&ServiceId::PostClusterRegistrationJob { cluster: 0 }), None);
}

#[test]
fn health_check_block_with_and_without_warm_up() {
    let mut check = HealthCheck {
        probe: "[\"CMD\", \"true\"]",
        interval_seconds: 1,
        timeout_seconds: 20,
        retries: 300,
        start_period_seconds: None,
    };
    assert_eq!(
        render_health_check(&Some(check)),
        "        healthcheck:\n            test: [\"CMD\", \"true\"]\n            interval: 1s\n            timeout: 20s\n            retries: 300\n"
    );
    check.start_period_seconds = Some(0);
    assert_eq!(
        render_health_check(&Some(check)),
        "        healthcheck:\n            test: [\"CMD\", \"true\"]\n            interval: 1s\n            timeout: 20s\n            retries: 300\n            start_period: 0s\n"
    );
    assert_eq!(render_health_check(&None), "");
}

#[test]
fn blocks_are_left_out_when_empty() {
    assert_eq!(render_environment(&vec![]), "");
    assert_eq!(render_depends_on(&vec![]), "");
    assert_eq!(render_ports(&None), "");
    assert_eq!(render_mounts(&ServiceId::Broker { cluster: 0, replica: 0 }), "");
}

#[test]
fn blocks_list_their_items() {
    assert_eq!(
        render_environment(&strings(&["A=1", "B=two words"])),
        "        environment:\n            - A=1\n            - B=two words\n"
    );
    assert_eq!(
        render_depends_on(&vec![
            Dependency {
                target: ServiceId::ClusterInitJob { cluster: 3 },
                condition: Condition::ExitedSuccessfully,
            },
            Dependency { target: ServiceId::Zookeeper { replica: 0 }, condition: Condition::Started },
        ]),
        "        depends_on:\n            pulsar-init-job-cluster-3:\n                condition: service_completed_successfully\n            zookeeper-0:\n                condition: service_started\n"
    );
    assert_eq!(
        render_mounts(&ServiceId::Bookie { cluster: 2, replica: 1 }),
        "        volumes:\n            - bookie-data-cluster-2-1:/pulsar/data\n"
    );
}
