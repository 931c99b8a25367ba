//! The shell command that each kind of service runs in its container.

use vstd::prelude::*;
use crate::instance_config::{PulsarInstanceConfig, Topology};
use crate::service::{cluster_name, cluster_name_of, ServiceId};
use crate::text::{
    concat_all, concat_strings, decimal_digits, decimal_string, join_strings, joined,
    lemma_string_views_push, string_views,
};

verus! {

/// How a ZooKeeper replica's command begins: settings from the environment go into its files.
pub const ZOOKEEPER_PREPARE: &'static str =
    "bin/apply-config-from-env.py conf/zookeeper.conf && bin/apply-config-from-env.py conf/pulsar_env.sh && ";

/// What a bookie runs. It formats its storage only when the storage holds no
/// instance id yet, so that a restart never wipes the ledgers written before.
pub const BOOKIE_SCRIPT: &'static str =
    "set -e; bin/apply-config-from-env.py conf/bookkeeper.conf; bin/apply-config-from-env.py conf/pulsar_env.sh; if bin/bookkeeper shell whatisinstanceid; then echo bookkeeper_cluster_already_initialized; else echo init_new_bookkeeper_cluster_start; bin/bookkeeper shell initnewcluster; echo init_new_bookkeeper_cluster_end; fi; exec bin/pulsar bookie";

/// What a broker runs.
pub const BROKER_SCRIPT: &'static str =
    "bin/apply-config-from-env.py conf/broker.conf && exec bin/pulsar broker";

/// What a proxy runs.
pub const PROXY_SCRIPT: &'static str =
    "bin/apply-config-from-env.py conf/proxy.conf && bin/apply-config-from-env.py conf/pulsar_env.sh && bin/pulsar proxy";

/// The service addresses that the init job records for its cluster. They are
/// written down as they stand here, braces included.
pub const INIT_JOB_SERVICE_URLS: &'static str =
    " --web-service-url http://broker-{cluster_name}:8080 --broker-service-url pulsar://broker-{custer_name}:6650";

/// The line that tells a ZooKeeper replica of one member of the ensemble.
pub open spec fn zookeeper_server_entry(replica: nat) -> Seq<char> {
    "echo \"server."@ + decimal_digits(replica) + "=zookeeper-"@ + decimal_digits(replica)
        + ":2888:3888\" >> /pulsar/conf/zookeeper.conf"@
}

/// One such line for each member of the ensemble.
pub open spec fn zookeeper_server_entries(zookeepers: nat) -> Seq<Seq<char>> {
    Seq::new(zookeepers, |i: int| zookeeper_server_entry(i as nat))
}

/// What a ZooKeeper replica runs. It lists the whole ensemble in its
/// configuration and writes its own number to `myid` only if no `myid` is
/// there, so that a restart keeps the identity of the replica.
pub open spec fn zookeeper_script(zookeepers: nat, replica: nat) -> Seq<char> {
    ZOOKEEPER_PREPARE@ + joined(zookeeper_server_entries(zookeepers), "; "@)
        + " && if [ ! -f /pulsar/data/zookeeper/myid ]; then mkdir -p /pulsar/data/zookeeper && echo "@
        + decimal_digits(replica) + " > /pulsar/data/zookeeper/myid; fi && exec bin/pulsar zookeeper"@
}

/// What the init job of a cluster runs: it records the cluster in the metadata store.
pub open spec fn init_job_script(cluster: nat) -> Seq<char> {
    "bin/apply-config-from-env.py conf/pulsar_env.sh; bin/pulsar initialize-cluster-metadata --cluster "@
        + cluster_name_of(cluster) + " --metadata-store zk:zookeeper-0:2181/"@ + cluster_name_of(
        cluster,
    ) + " --configuration-metadata-store zk:zookeeper-0:2181/"@ + cluster_name_of(cluster)
        + INIT_JOB_SERVICE_URLS@
}

/// The admin client pointed at the proxy of a cluster.
pub open spec fn admin_client(cluster: nat) -> Seq<char> {
    "bin/pulsar-admin --admin-url http://pulsar-proxy-"@ + cluster_name_of(cluster) + ":8080"@
}

/// Registers the cluster `peer` with the cluster that `admin` talks to.
pub open spec fn register_cluster_step(admin: Seq<char>, peer: nat) -> Seq<char> {
    admin + " clusters create --url http://pulsar-proxy-"@ + cluster_name_of(peer)
        + ":8080 --broker-url pulsar://pulsar-proxy-"@ + cluster_name_of(peer) + ":6650 "@
        + cluster_name_of(peer) + "; "@
}

/// Asks the cluster that `admin` talks to whether it knows the cluster `peer`.
pub open spec fn check_cluster_step(admin: Seq<char>, peer: nat) -> Seq<char> {
    admin + " clusters get "@ + cluster_name_of(peer) + "; "@
}

/// The names of the first `clusters` clusters.
pub open spec fn cluster_names(clusters: nat) -> Seq<Seq<char>> {
    Seq::new(clusters, |i: int| cluster_name_of(i as nat))
}

/// The first phase of the registration job: create whatever is missing, and
/// go on when a step fails because its resource is there already.
pub open spec fn create_resources_script(clusters: nat, cluster: nat) -> Seq<char> {
    "set +e; "@ + concat_all(
        Seq::new(clusters, |i: int| register_cluster_step(admin_client(cluster), i as nat)),
    ) + admin_client(cluster) + " tenants create --allowed-clusters "@ + cluster_name_of(cluster)
        + " "@ + cluster_name_of(cluster) + "-local; "@ + admin_client(cluster)
        + " namespaces create "@ + cluster_name_of(cluster) + "-local/default; "@ + admin_client(
        cluster,
    ) + " tenants create --allowed-clusters "@ + joined(cluster_names(clusters), ","@)
        + " global; "@ + admin_client(cluster) + " namespaces create global/default; "@
        + admin_client(cluster) + " namespaces set-clusters --clusters "@ + joined(
        cluster_names(clusters),
        ","@,
    ) + " global/default;"@
}

/// The second phase of the registration job: every cluster, tenant and
/// namespace has to be there, and the first that is missing fails the job.
pub open spec fn check_resources_script(clusters: nat, cluster: nat) -> Seq<char> {
    "set -e; "@ + concat_all(
        Seq::new(clusters, |i: int| check_cluster_step(admin_client(cluster), i as nat)),
    ) + admin_client(cluster) + " tenants get "@ + cluster_name_of(cluster) + "-local; "@
        + admin_client(cluster) + " namespaces get "@ + cluster_name_of(cluster)
        + "-local/default; "@ + admin_client(cluster) + " tenants get global; "@ + admin_client(
        cluster,
    ) + " namespaces get global/default;"@
}

/// What the registration job of a cluster runs: create, then verify. Running
/// it again on an instance that is set up already changes nothing and succeeds.
pub open spec fn registration_script(clusters: nat, cluster: nat) -> Seq<char> {
    create_resources_script(clusters, cluster) + " "@ + check_resources_script(clusters, cluster)
        + " echo success"@
}

/// What a service runs in its container.
pub open spec fn script_of(t: Topology, id: ServiceId) -> Seq<char> {
    match id {
        ServiceId::Zookeeper { replica } => zookeeper_script(t.zookeepers, replica as nat),
        ServiceId::ClusterInitJob { cluster } => init_job_script(cluster as nat),
        ServiceId::Bookie { .. } => BOOKIE_SCRIPT@,
        ServiceId::Broker { .. } => BROKER_SCRIPT@,
        ServiceId::Proxy { .. } => PROXY_SCRIPT@,
        ServiceId::PostClusterRegistrationJob { cluster } => registration_script(
            t.clusters,
            cluster as nat,
        ),
    }
}

fn zookeeper_server_line(replica: u32) -> (line: String)
    ensures
        line@ == zookeeper_server_entry(replica as nat),
{
    let digits: String = decimal_string(replica as u64);
    let mut line: String = String::from_str("echo \"server.");
    line.append(digits.as_str());
    line.append("=zookeeper-");
    line.append(digits.as_str());
    line.append(":2888:3888\" >> /pulsar/conf/zookeeper.conf");
    line
}

/// Writes the command of a ZooKeeper replica.
pub fn zookeeper_command(zookeepers: u32, replica: u32) -> (script: String)
    ensures
        script@ == zookeeper_script(zookeepers as nat, replica as nat),
{
    let mut lines: Vec<String> = Vec::new();
    let mut i: u32 = 0;
    assert(string_views(lines@) =~= zookeeper_server_entries(0));
    while i < zookeepers
        invariant
            i <= zookeepers,
            string_views(lines@) == zookeeper_server_entries(i as nat),
        decreases zookeepers - i,
    {
        let line: String = zookeeper_server_line(i);
        proof {
            lemma_string_views_push(lines@, line);
            assert(zookeeper_server_entries((i + 1) as nat) =~= zookeeper_server_entries(
                i as nat,
            ).push(zookeeper_server_entry(i as nat)));
        }
        lines.push(line);
        i = i + 1;
    }
    let servers: String = join_strings(&lines, "; ");
    let digits: String = decimal_string(replica as u64);
    let mut script: String = String::from_str(ZOOKEEPER_PREPARE);
    script.append(servers.as_str());
    script.append(
        " && if [ ! -f /pulsar/data/zookeeper/myid ]; then mkdir -p /pulsar/data/zookeeper && echo ",
    );
    script.append(digits.as_str());
    script.append(" > /pulsar/data/zookeeper/myid; fi && exec bin/pulsar zookeeper");
    script
}

/// Writes the command of the init job of a cluster.
pub fn init_job_command(cluster: u32) -> (script: String)
    ensures
        script@ == init_job_script(cluster as nat),
{
    let name: String = cluster_name(cluster);
    let mut script: String = String::from_str(
        "bin/apply-config-from-env.py conf/pulsar_env.sh; bin/pulsar initialize-cluster-metadata --cluster ",
    );
    script.append(name.as_str());
    script.append(" --metadata-store zk:zookeeper-0:2181/");
    script.append(name.as_str());
    script.append(" --configuration-metadata-store zk:zookeeper-0:2181/");
    script.append(name.as_str());
    script.append(INIT_JOB_SERVICE_URLS);
    script
}

fn admin_client_command(cluster: u32) -> (admin: String)
    ensures
        admin@ == admin_client(cluster as nat),
{
    let name: String = cluster_name(cluster);
    let mut admin: String = String::from_str("bin/pulsar-admin --admin-url http://pulsar-proxy-");
    admin.append(name.as_str());
    admin.append(":8080");
    admin
}

fn register_cluster_command(admin: &str, peer: u32) -> (step: String)
    ensures
        step@ == register_cluster_step(admin@, peer as nat),
{
    let name: String = cluster_name(peer);
    let mut step: String = String::from_str(admin);
    step.append(" clusters create --url http://pulsar-proxy-");
    step.append(name.as_str());
    step.append(":8080 --broker-url pulsar://pulsar-proxy-");
    step.append(name.as_str());
    step.append(":6650 ");
    step.append(name.as_str());
    step.append("; ");
    step
}

fn check_cluster_command(admin: &str, peer: u32) -> (step: String)
    ensures
        step@ == check_cluster_step(admin@, peer as nat),
{
    let name: String = cluster_name(peer);
    let mut step: String = String::from_str(admin);
    step.append(" clusters get ");
    step.append(name.as_str());
    step.append("; ");
    step
}

fn cluster_name_list(clusters: u32) -> (list: String)
    ensures
        list@ == joined(cluster_names(clusters as nat), ","@),
{
    let mut names: Vec<String> = Vec::new();
    let mut i: u32 = 0;
    assert(string_views(names@) =~= cluster_names(0));
    while i < clusters
        invariant
            i <= clusters,
            string_views(names@) == cluster_names(i as nat),
        decreases clusters - i,
    {
        let name: String = cluster_name(i);
        proof {
            lemma_string_views_push(names@, name);
            assert(cluster_names((i + 1) as nat) =~= cluster_names(i as nat).push(
                cluster_name_of(i as nat),
            ));
        }
        names.push(name);
        i = i + 1;
    }
    join_strings(&names, ",")
}

/// Writes the first phase of the registration job of a cluster.
pub fn create_resources_command(clusters: u32, cluster: u32) -> (script: String)
    ensures
        script@ == create_resources_script(clusters as nat, cluster as nat),
{
    let admin: String = admin_client_command(cluster);
    let name: String = cluster_name(cluster);
    let all: String = cluster_name_list(clusters);
    let ghost steps = Seq::new(
        clusters as nat,
        |i: int| register_cluster_step(admin_client(cluster as nat), i as nat),
    );
    let mut parts: Vec<String> = Vec::new();
    let mut i: u32 = 0;
    assert(string_views(parts@) =~= steps.take(0));
    while i < clusters
        invariant
            i <= clusters,
            admin@ == admin_client(cluster as nat),
            steps == Seq::new(
                clusters as nat,
                |i: int| register_cluster_step(admin_client(cluster as nat), i as nat),
            ),
            string_views(parts@) == steps.take(i as int),
        decreases clusters - i,
    {
        let step: String = register_cluster_command(admin.as_str(), i);
        proof {
            lemma_string_views_push(parts@, step);
            assert(steps.take(i + 1) =~= steps.take(i as int).push(steps[i as int]));
        }
        parts.push(step);
        i = i + 1;
    }
    assert(steps.take(clusters as int) =~= steps);
    let registrations: String = concat_strings(&parts);
    let mut script: String = String::from_str("set +e; ");
    script.append(registrations.as_str());
    script.append(admin.as_str());
    script.append(" tenants create --allowed-clusters ");
    script.append(name.as_str());
    script.append(" ");
    script.append(name.as_str());
    script.append("-local; ");
    script.append(admin.as_str());
    script.append(" namespaces create ");
    script.append(name.as_str());
    script.append("-local/default; ");
    script.append(admin.as_str());
    script.append(" tenants create --allowed-clusters ");
    script.append(all.as_str());
    script.append(" global; ");
    script.append(admin.as_str());
    script.append(" namespaces create global/default; ");
    script.append(admin.as_str());
    script.append(" namespaces set-clusters --clusters ");
    script.append(all.as_str());
    script.append(" global/default;");
    script
}

/// Writes the second phase of the registration job of a cluster.
pub fn check_resources_command(clusters: u32, cluster: u32) -> (script: String)
    ensures
        script@ == check_resources_script(clusters as nat, cluster as nat),
{
    let admin: String = admin_client_command(cluster);
    let name: String = cluster_name(cluster);
    let ghost steps = Seq::new(
        clusters as nat,
        |i: int| check_cluster_step(admin_client(cluster as nat), i as nat),
    );
    let mut parts: Vec<String> = Vec::new();
    let mut i: u32 = 0;
    assert(string_views(parts@) =~= steps.take(0));
    while i < clusters
        invariant
            i <= clusters,
            admin@ == admin_client(cluster as nat),
            steps == Seq::new(
                clusters as nat,
                |i: int| check_cluster_step(admin_client(cluster as nat), i as nat),
            ),
            string_views(parts@) == steps.take(i as int),
        decreases clusters - i,
    {
        let step: String = check_cluster_command(admin.as_str(), i);
        proof {
            lemma_string_views_push(parts@, step);
            assert(steps.take(i + 1) =~= steps.take(i as int).push(steps[i as int]));
        }
        parts.push(step);
        i = i + 1;
    }
    assert(steps.take(clusters as int) =~= steps);
    let checks: String = concat_strings(&parts);
    let mut script: String = String::from_str("set -e; ");
    script.append(checks.as_str());
    script.append(admin.as_str());
    script.append(" tenants get ");
    script.append(name.as_str());
    script.append("-local; ");
    script.append(admin.as_str());
    script.append(" namespaces get ");
    script.append(name.as_str());
    script.append("-local/default; ");
    script.append(admin.as_str());
    script.append(" tenants get global; ");
    script.append(admin.as_str());
    script.append(" namespaces get global/default;");
    script
}

/// Writes the command of the registration job of a cluster.
pub fn registration_command(clusters: u32, cluster: u32) -> (script: String)
    ensures
        script@ == registration_script(clusters as nat, cluster as nat),
{
    let check: String = check_resources_command(clusters, cluster);
    let mut script: String = create_resources_command(clusters, cluster);
    script.append(" ");
    script.append(check.as_str());
    script.append(" echo success");
    script
}

/// Writes the command that a service runs in its container.
pub fn service_command(args: &PulsarInstanceConfig, id: &ServiceId) -> (script: String)
    ensures
        script@ == script_of(args@, *id),
{
    match id {
        ServiceId::Zookeeper { replica } => zookeeper_command(args.num_zookeepers, *replica),
        ServiceId::ClusterInitJob { cluster } => init_job_command(*cluster),
        ServiceId::Bookie { .. } => String::from_str(BOOKIE_SCRIPT),
        ServiceId::Broker { .. } => String::from_str(BROKER_SCRIPT),
        ServiceId::Proxy { .. } => String::from_str(PROXY_SCRIPT),
        ServiceId::PostClusterRegistrationJob { cluster } => registration_command(
            args.num_clusters,
            *cluster,
        ),
    }
}

} // verus!
