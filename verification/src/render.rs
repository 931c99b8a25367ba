//! The descriptor entry of one service: image, command, environment, health
//! probe, dependencies and network.

use vstd::prelude::*;
use crate::graph::{NodeView, ServiceNode};
use crate::instance_config::{PulsarInstanceConfig, Topology};
use crate::ports::{PortAssignment, ADMIN_CONTAINER_PORT, DATA_CONTAINER_PORT};
use crate::quorum::QuorumConfig;
use crate::scripts::{script_of, service_command};
use crate::service::{
    cluster_name, cluster_name_of, condition_keyword, condition_word, network_name,
    network_name_of, service_name, service_name_of, volume_name, volume_name_of, Dependency,
    ServiceId,
};
use crate::text::{
    concat_all, concat_strings, decimal_digits, decimal_string, join_strings, joined,
    lemma_string_views_push, string_views,
};

verus! {

/// The probe by which the orchestrator learns that a service is healthy.
#[derive(Clone, Copy, Debug, PartialEq, Eq)]
pub struct HealthCheck {
    /// The command that is run inside the container, as a list in brackets.
    pub probe: &'static str,
    pub interval_seconds: u32,
    pub timeout_seconds: u32,
    pub retries: u32,
    /// How long failures are forgiven after the start, if at all.
    pub start_period_seconds: Option<u32>,
}

/// The mathematical content of a [`HealthCheck`].
pub struct HealthCheckView {
    pub probe: Seq<char>,
    pub interval_seconds: nat,
    pub timeout_seconds: nat,
    pub retries: nat,
    pub start_period_seconds: Option<nat>,
}

impl View for HealthCheck {
    type V = HealthCheckView;

    open spec fn view(&self) -> HealthCheckView {
        HealthCheckView {
            probe: self.probe@,
            interval_seconds: self.interval_seconds as nat,
            timeout_seconds: self.timeout_seconds as nat,
            retries: self.retries as nat,
            start_period_seconds: match self.start_period_seconds {
                Some(seconds) => Some(seconds as nat),
                None => None,
            },
        }
    }
}

/// Asks a ZooKeeper replica whether it is running.
pub const ZOOKEEPER_PROBE: &'static str = "[\"CMD\", \"bin/pulsar-zookeeper-ruok.sh\"]";

/// Writes and reads a ledger on the bookie.
pub const BOOKIE_PROBE: &'static str =
    "[\"CMD\", \"/pulsar/bin/bookkeeper\", \"shell\", \"bookiesanity\"]";

/// Asks the admin endpoint for the health of the brokers.
pub const ADMIN_PROBE: &'static str =
    "[\"CMD\", \"curl\", \"--fail\", \"http://127.0.0.1:8080/admin/v2/brokers/health\"]";

/// The Java memory settings of a ZooKeeper replica and of an init job.
pub const SMALL_QUOTED_MEMORY: &'static str =
    "PULSAR_MEM=\"-Xms256m -Xmx256m -XX:MaxDirectMemorySize=256m\"";

/// The Java memory settings of a proxy.
pub const PROXY_MEMORY: &'static str = "PULSAR_MEM=-Xms256m -Xmx256m -XX:MaxDirectMemorySize=128m";

/// The Java memory settings of a broker.
pub const BROKER_MEMORY: &'static str = "PULSAR_MEM=-Xms512m -Xmx512m -XX:MaxDirectMemorySize=256m";

/// The Java memory settings of a bookie.
pub const BOOKIE_MEMORY: &'static str = "BOOKIE_MEM=-Xms512m -Xmx512m -XX:MaxDirectMemorySize=256m";

/// The garbage collector of brokers and bookies.
pub const GARBAGE_COLLECTOR: &'static str = "PULSAR_GC=-XX:+UseG1GC";

/// The probe of each kind of service; a one-shot job has none.
pub open spec fn health_check_of(id: ServiceId) -> Option<HealthCheckView> {
    match id {
        ServiceId::Zookeeper { .. } => Some(
            HealthCheckView {
                probe: ZOOKEEPER_PROBE@,
                interval_seconds: 5,
                timeout_seconds: 5,
                retries: 10,
                start_period_seconds: None,
            },
        ),
        ServiceId::Bookie { .. } => Some(
            HealthCheckView {
                probe: BOOKIE_PROBE@,
                interval_seconds: 10,
                timeout_seconds: 30,
                retries: 30,
                start_period_seconds: Some(60),
            },
        ),
        ServiceId::Broker { .. } => Some(
            HealthCheckView {
                probe: ADMIN_PROBE@,
                interval_seconds: 10,
                timeout_seconds: 5,
                retries: 20,
                start_period_seconds: None,
            },
        ),
        ServiceId::Proxy { .. } => Some(
            HealthCheckView {
                probe: ADMIN_PROBE@,
                interval_seconds: 5,
                timeout_seconds: 5,
                retries: 30,
                start_period_seconds: None,
            },
        ),
        _ => None,
    }
}

/// The line that comes behind a probe for its warm-up period, if it has one.
pub open spec fn start_period_text(start_period_seconds: Option<nat>) -> Seq<char> {
    match start_period_seconds {
        Some(seconds) => "            start_period: "@ + decimal_digits(seconds) + "s\n"@,
        None => Seq::empty(),
    }
}

/// The health check block of an entry; empty where there is no probe.
pub open spec fn health_check_text(check: Option<HealthCheckView>) -> Seq<char> {
    match check {
        Some(c) => "        healthcheck:\n            test: "@ + c.probe + "\n            interval: "@
            + decimal_digits(c.interval_seconds) + "s\n            timeout: "@ + decimal_digits(
            c.timeout_seconds,
        ) + "s\n            retries: "@ + decimal_digits(c.retries) + "\n"@ + start_period_text(
            c.start_period_seconds,
        ),
        None => Seq::empty(),
    }
}

/// The comment line above an entry.
pub open spec fn comment_of(id: ServiceId) -> Seq<char> {
    match id {
        ServiceId::Zookeeper { .. } => "# Zookeeper for Pulsar"@,
        ServiceId::ClusterInitJob { cluster } => "# Pulsar init job for cluster "@
            + cluster_name_of(cluster as nat),
        ServiceId::Bookie { cluster, .. } => "# Bookie for cluster "@ + cluster_name_of(
            cluster as nat,
        ),
        ServiceId::Broker { cluster, .. } => "# Pulsar broker for cluster "@ + cluster_name_of(
            cluster as nat,
        ),
        ServiceId::Proxy { cluster } => "# Pulsar proxy for cluster "@ + cluster_name_of(
            cluster as nat,
        ),
        ServiceId::PostClusterRegistrationJob { cluster } => "# Register new cluster "@
            + cluster_name_of(cluster as nat),
    }
}

/// The restart policy line. An init job runs once and is not restarted.
pub open spec fn restart_text(id: ServiceId) -> Seq<char> {
    if id is ClusterInitJob {
        Seq::empty()
    } else {
        "        restart: on-failure\n"@
    }
}

/// The addresses of the ZooKeeper replicas in the form that brokers and proxies take.
pub open spec fn metadata_store_hosts(zookeepers: nat) -> Seq<Seq<char>> {
    Seq::new(zookeepers, |i: int| "zk:zookeeper-"@ + decimal_digits(i as nat) + ":2181"@)
}

/// The metadata store address of brokers and proxies.
pub open spec fn metadata_store_url(zookeepers: nat) -> Seq<char> {
    joined(metadata_store_hosts(zookeepers), ","@)
}

/// The addresses of the ZooKeeper replicas in the form that bookies take.
pub open spec fn ledger_store_hosts(zookeepers: nat) -> Seq<Seq<char>> {
    Seq::new(zookeepers, |i: int| "zookeeper-"@ + decimal_digits(i as nat) + ":2181"@)
}

/// The metadata service address of bookies.
pub open spec fn ledger_store_uri(zookeepers: nat) -> Seq<char> {
    "zk://"@ + joined(ledger_store_hosts(zookeepers), ";"@) + "/ledgers"@
}

/// The three settings that carry a quorum configuration to a broker.
pub open spec fn quorum_settings(quorum: Option<QuorumConfig>) -> Seq<Seq<char>> {
    match quorum {
        Some(q) => seq![
            "managedLedgerDefaultEnsembleSize="@ + decimal_digits(q.ensemble_size as nat),
            "managedLedgerDefaultWriteQuorum="@ + decimal_digits(q.write_quorum as nat),
            "managedLedgerDefaultAckQuorum="@ + decimal_digits(q.ack_quorum as nat),
        ],
        None => Seq::empty(),
    }
}

/// The settings that tell a service of its cluster and of the metadata store.
pub open spec fn cluster_settings(zookeepers: nat, cluster: nat) -> Seq<Seq<char>> {
    seq![
        "clusterName="@ + cluster_name_of(cluster),
        "metadataStoreUrl="@ + metadata_store_url(zookeepers),
        "configurationMetadataStoreUrl="@ + metadata_store_url(zookeepers),
    ]
}

/// The environment of a service: one `KEY=value` setting after the other.
pub open spec fn environment_of(t: Topology, node: NodeView) -> Seq<Seq<char>> {
    match node.id {
        ServiceId::Zookeeper { .. } => seq![SMALL_QUOTED_MEMORY@],
        ServiceId::ClusterInitJob { .. } => seq![SMALL_QUOTED_MEMORY@],
        ServiceId::Bookie { cluster, .. } => seq![
            "clusterName="@ + cluster_name_of(cluster as nat),
            "metadataServiceUri="@ + ledger_store_uri(t.zookeepers),
            "useHostNameAsBookieID=true"@,
            BOOKIE_MEMORY@,
            GARBAGE_COLLECTOR@,
            "dbStorage_writeCacheMaxSizeMb=16"@,
            "dbStorage_readAheadCacheMaxSizeMb=16"@,
        ],
        ServiceId::Broker { cluster, .. } => cluster_settings(t.zookeepers, cluster as nat)
            + quorum_settings(node.quorum) + seq![BROKER_MEMORY@, GARBAGE_COLLECTOR@],
        ServiceId::Proxy { cluster } => cluster_settings(t.zookeepers, cluster as nat) + seq![
            PROXY_MEMORY@,
        ],
        ServiceId::PostClusterRegistrationJob { .. } => Seq::empty(),
    }
}

/// One item of a list in an entry.
pub open spec fn list_item(item: Seq<char>) -> Seq<char> {
    "            - "@ + item + "\n"@
}

/// The environment block of an entry; empty where there are no settings.
pub open spec fn environment_text(settings: Seq<Seq<char>>) -> Seq<char> {
    if settings.len() == 0 {
        Seq::empty()
    } else {
        "        environment:\n"@ + concat_all(
            Seq::new(settings.len(), |i: int| list_item(settings[i])),
        )
    }
}

/// The block that publishes the ports of a service on the host; empty where
/// none are assigned.
pub open spec fn ports_text(ports: Option<PortAssignment>) -> Seq<char> {
    match ports {
        Some(p) => "        ports:\n            - "@ + decimal_digits(p.admin_port as nat) + ":"@
            + decimal_digits(ADMIN_CONTAINER_PORT as nat) + "\n            - "@ + decimal_digits(
            p.data_port as nat,
        ) + ":"@ + decimal_digits(DATA_CONTAINER_PORT as nat) + "\n"@,
        None => Seq::empty(),
    }
}

/// The block that mounts the data volume of a bookie; empty for other services.
pub open spec fn mounts_text(id: ServiceId) -> Seq<char> {
    match id {
        ServiceId::Bookie { cluster, replica } => "        volumes:\n            - "@
            + volume_name_of(cluster as nat, replica as nat) + ":/pulsar/data\n"@,
        _ => Seq::empty(),
    }
}

/// One edge of the graph as an entry of a `depends_on` map.
pub open spec fn dependency_text(edge: Dependency) -> Seq<char> {
    "            "@ + service_name_of(edge.target) + ":\n                condition: "@
        + condition_word(edge.condition) + "\n"@
}

/// The `depends_on` map of an entry, one entry for each edge in the order of
/// the edges; empty where the service waits for nothing.
pub open spec fn depends_on_text(edges: Seq<Dependency>) -> Seq<char> {
    if edges.len() == 0 {
        Seq::empty()
    } else {
        "        depends_on:\n"@ + concat_all(
            Seq::new(edges.len(), |i: int| dependency_text(edges[i])),
        )
    }
}

/// The descriptor entry of one service of an instance.
pub open spec fn service_text(t: Topology, node: NodeView) -> Seq<char> {
    "    "@ + comment_of(node.id) + "\n    "@ + service_name_of(node.id)
        + ":\n        image: apachepulsar/pulsar:"@ + t.version + "\n        user: pulsar\n"@
        + restart_text(node.id) + "        command: bash -c \""@ + script_of(t, node.id) + "\"\n"@
        + ports_text(node.ports) + environment_text(environment_of(t, node)) + mounts_text(node.id)
        + health_check_text(health_check_of(node.id)) + depends_on_text(node.depends_on)
        + "        networks:\n            - "@ + network_name_of(t.name) + "\n\n"@
}

/// The content of a probe that may be absent.
pub open spec fn health_check_view(check: Option<HealthCheck>) -> Option<HealthCheckView> {
    match check {
        Some(c) => Some(c@),
        None => None,
    }
}

/// The probe of a service; a one-shot job has none.
pub fn health_check(id: &ServiceId) -> (check: Option<HealthCheck>)
    ensures
        health_check_view(check) == health_check_of(*id),
{
    match id {
        ServiceId::Zookeeper { .. } => Some(
            HealthCheck {
                probe: ZOOKEEPER_PROBE,
                interval_seconds: 5,
                timeout_seconds: 5,
                retries: 10,
                start_period_seconds: None,
            },
        ),
        ServiceId::Bookie { .. } => Some(
            HealthCheck {
                probe: BOOKIE_PROBE,
                interval_seconds: 10,
                timeout_seconds: 30,
                retries: 30,
                start_period_seconds: Some(60),
            },
        ),
        ServiceId::Broker { .. } => Some(
            HealthCheck {
                probe: ADMIN_PROBE,
                interval_seconds: 10,
                timeout_seconds: 5,
                retries: 20,
                start_period_seconds: None,
            },
        ),
        ServiceId::Proxy { .. } => Some(
            HealthCheck {
                probe: ADMIN_PROBE,
                interval_seconds: 5,
                timeout_seconds: 5,
                retries: 30,
                start_period_seconds: None,
            },
        ),
        _ => None,
    }
}

/// Writes the health check block of an entry.
pub fn render_health_check(check: &Option<HealthCheck>) -> (text: String)
    ensures
        text@ == health_check_text(health_check_view(*check)),
{
    match check {
        Some(c) => {
            let interval: String = decimal_string(c.interval_seconds as u64);
            let timeout: String = decimal_string(c.timeout_seconds as u64);
            let retries: String = decimal_string(c.retries as u64);
            let mut text: String = String::from_str("        healthcheck:\n            test: ");
            text.append(c.probe);
            text.append("\n            interval: ");
            text.append(interval.as_str());
            text.append("s\n            timeout: ");
            text.append(timeout.as_str());
            text.append("s\n            retries: ");
            text.append(retries.as_str());
            text.append("\n");
            match c.start_period_seconds {
                Some(seconds) => {
                    let period: String = decimal_string(seconds as u64);
                    let mut line: String = String::from_str("            start_period: ");
                    line.append(period.as_str());
                    line.append("s\n");
                    text.append(line.as_str());
                },
                None => {
                    let ghost before: Seq<char> = text@;
                    assert(before + Seq::<char>::empty() =~= before);
                },
            }
            text
        },
        None => String::new(),
    }
}

fn metadata_store_address(zookeepers: u32) -> (url: String)
    ensures
        url@ == metadata_store_url(zookeepers as nat),
{
    let mut hosts: Vec<String> = Vec::new();
    let mut i: u32 = 0;
    assert(string_views(hosts@) =~= metadata_store_hosts(0));
    while i < zookeepers
        invariant
            i <= zookeepers,
            string_views(hosts@) == metadata_store_hosts(i as nat),
        decreases zookeepers - i,
    {
        let digits: String = decimal_string(i as u64);
        let mut host: String = String::from_str("zk:zookeeper-");
        host.append(digits.as_str());
        host.append(":2181");
        proof {
            lemma_string_views_push(hosts@, host);
            assert(metadata_store_hosts((i + 1) as nat) =~= metadata_store_hosts(i as nat).push(
                host@,
            ));
        }
        hosts.push(host);
        i = i + 1;
    }
    join_strings(&hosts, ",")
}

fn ledger_store_address(zookeepers: u32) -> (uri: String)
    ensures
        uri@ == ledger_store_uri(zookeepers as nat),
{
    let mut hosts: Vec<String> = Vec::new();
    let mut i: u32 = 0;
    assert(string_views(hosts@) =~= ledger_store_hosts(0));
    while i < zookeepers
        invariant
            i <= zookeepers,
            string_views(hosts@) == ledger_store_hosts(i as nat),
        decreases zookeepers - i,
    {
        let digits: String = decimal_string(i as u64);
        let mut host: String = String::from_str("zookeeper-");
        host.append(digits.as_str());
        host.append(":2181");
        proof {
            lemma_string_views_push(hosts@, host);
            assert(ledger_store_hosts((i + 1) as nat) =~= ledger_store_hosts(i as nat).push(host@));
        }
        hosts.push(host);
        i = i + 1;
    }
    let list: String = join_strings(&hosts, ";");
    let mut uri: String = String::from_str("zk://");
    uri.append(list.as_str());
    uri.append("/ledgers");
    uri
}

fn setting(key: &str, value: &str) -> (entry: String)
    ensures
        entry@ == key@ + value@,
{
    let mut entry: String = String::from_str(key);
    entry.append(value);
    entry
}

fn push_setting(settings: &mut Vec<String>, entry: String)
    ensures
        string_views(final(settings)@) == string_views(old(settings)@).push(entry@),
{
    proof {
        lemma_string_views_push(settings@, entry);
    }
    settings.push(entry);
}

fn push_cluster_settings(settings: &mut Vec<String>, zookeepers: u32, cluster: u32)
    ensures
        string_views(final(settings)@) == string_views(old(settings)@) + cluster_settings(
            zookeepers as nat,
            cluster as nat,
        ),
{
    let name: String = cluster_name(cluster);
    let url: String = metadata_store_address(zookeepers);
    push_setting(settings, setting("clusterName=", name.as_str()));
    push_setting(settings, setting("metadataStoreUrl=", url.as_str()));
    push_setting(settings, setting("configurationMetadataStoreUrl=", url.as_str()));
    assert(string_views(settings@) =~= string_views(old(settings)@) + cluster_settings(
        zookeepers as nat,
        cluster as nat,
    ));
}

fn push_quorum_settings(settings: &mut Vec<String>, quorum: &Option<QuorumConfig>)
    ensures
        string_views(final(settings)@) == string_views(old(settings)@) + quorum_settings(*quorum),
{
    match quorum {
        Some(q) => {
            let ensemble: String = decimal_string(q.ensemble_size as u64);
            let write: String = decimal_string(q.write_quorum as u64);
            let ack: String = decimal_string(q.ack_quorum as u64);
            push_setting(settings, setting("managedLedgerDefaultEnsembleSize=", ensemble.as_str()));
            push_setting(settings, setting("managedLedgerDefaultWriteQuorum=", write.as_str()));
            push_setting(settings, setting("managedLedgerDefaultAckQuorum=", ack.as_str()));
            assert(string_views(settings@) =~= string_views(old(settings)@) + quorum_settings(
                *quorum,
            ));
        },
        None => {
            assert(string_views(settings@) =~= string_views(old(settings)@) + quorum_settings(
                *quorum,
            ));
        },
    }
}

/// Lists the environment of a service.
pub fn service_environment(args: &PulsarInstanceConfig, node: &ServiceNode) -> (settings: Vec<
    String,
>)
    ensures
        string_views(settings@) == environment_of(args@, node@),
{
    let mut settings: Vec<String> = Vec::new();
    assert(string_views(settings@) =~= Seq::<Seq<char>>::empty());
    match node.id {
        ServiceId::Zookeeper { .. } => {
            push_setting(&mut settings, String::from_str(SMALL_QUOTED_MEMORY));
            assert(string_views(settings@) =~= environment_of(args@, node@));
        },
        ServiceId::ClusterInitJob { .. } => {
            push_setting(&mut settings, String::from_str(SMALL_QUOTED_MEMORY));
            assert(string_views(settings@) =~= environment_of(args@, node@));
        },
        ServiceId::Bookie { cluster, .. } => {
            let name: String = cluster_name(cluster);
            let uri: String = ledger_store_address(args.num_zookeepers);
            push_setting(&mut settings, setting("clusterName=", name.as_str()));
            push_setting(&mut settings, setting("metadataServiceUri=", uri.as_str()));
            push_setting(&mut settings, String::from_str("useHostNameAsBookieID=true"));
            push_setting(&mut settings, String::from_str(BOOKIE_MEMORY));
            push_setting(&mut settings, String::from_str(GARBAGE_COLLECTOR));
            push_setting(&mut settings, String::from_str("dbStorage_writeCacheMaxSizeMb=16"));
            push_setting(&mut settings, String::from_str("dbStorage_readAheadCacheMaxSizeMb=16"));
            assert(string_views(settings@) =~= environment_of(args@, node@));
        },
        ServiceId::Broker { cluster, .. } => {
            push_cluster_settings(&mut settings, args.num_zookeepers, cluster);
            push_quorum_settings(&mut settings, &node.quorum);
            push_setting(&mut settings, String::from_str(BROKER_MEMORY));
            push_setting(&mut settings, String::from_str(GARBAGE_COLLECTOR));
            assert(string_views(settings@) =~= environment_of(args@, node@));
        },
        ServiceId::Proxy { cluster } => {
            push_cluster_settings(&mut settings, args.num_zookeepers, cluster);
            push_setting(&mut settings, String::from_str(PROXY_MEMORY));
            assert(string_views(settings@) =~= environment_of(args@, node@));
        },
        ServiceId::PostClusterRegistrationJob { .. } => {},
    }
    settings
}

/// Writes the environment block of an entry.
pub fn render_environment(settings: &Vec<String>) -> (text: String)
    ensures
        text@ == environment_text(string_views(settings@)),
{
    if settings.len() == 0 {
        return String::new();
    }
    let ghost items = Seq::new(
        settings.len() as nat,
        |i: int| list_item(string_views(settings@)[i]),
    );
    let mut lines: Vec<String> = Vec::new();
    let mut i: usize = 0;
    assert(string_views(lines@) =~= items.take(0));
    while i < settings.len()
        invariant
            i <= settings.len(),
            items == Seq::new(
                settings.len() as nat,
                |i: int| list_item(string_views(settings@)[i]),
            ),
            string_views(lines@) == items.take(i as int),
        decreases settings.len() - i,
    {
        let mut line: String = String::from_str("            - ");
        line.append(settings[i].as_str());
        line.append("\n");
        proof {
            lemma_string_views_push(lines@, line);
            assert(items.take(i + 1) =~= items.take(i as int).push(items[i as int]));
        }
        lines.push(line);
        i = i + 1;
    }
    assert(items.take(settings.len() as int) =~= items);
    let body: String = concat_strings(&lines);
    let mut text: String = String::from_str("        environment:\n");
    text.append(body.as_str());
    text
}

/// Writes the block that publishes the ports of a service on the host.
pub fn render_ports(ports: &Option<PortAssignment>) -> (text: String)
    ensures
        text@ == ports_text(*ports),
{
    match ports {
        Some(p) => {
            let admin: String = decimal_string(p.admin_port);
            let data: String = decimal_string(p.data_port);
            let admin_inside: String = decimal_string(ADMIN_CONTAINER_PORT);
            let data_inside: String = decimal_string(DATA_CONTAINER_PORT);
            let mut text: String = String::from_str("        ports:\n            - ");
            text.append(admin.as_str());
            text.append(":");
            text.append(admin_inside.as_str());
            text.append("\n            - ");
            text.append(data.as_str());
            text.append(":");
            text.append(data_inside.as_str());
            text.append("\n");
            text
        },
        None => String::new(),
    }
}

/// Writes the block that mounts the data volume of a bookie.
pub fn render_mounts(id: &ServiceId) -> (text: String)
    ensures
        text@ == mounts_text(*id),
{
    match id {
        ServiceId::Bookie { cluster, replica } => {
            let volume: String = volume_name(*cluster, *replica);
            let mut text: String = String::from_str("        volumes:\n            - ");
            text.append(volume.as_str());
            text.append(":/pulsar/data\n");
            text
        },
        _ => String::new(),
    }
}

fn render_dependency(edge: &Dependency) -> (text: String)
    ensures
        text@ == dependency_text(*edge),
{
    let target: String = service_name(&edge.target);
    let mut text: String = String::from_str("            ");
    text.append(target.as_str());
    text.append(":\n                condition: ");
    text.append(condition_keyword(edge.condition));
    text.append("\n");
    text
}

/// Writes the `depends_on` map of an entry.
pub fn render_depends_on(edges: &Vec<Dependency>) -> (text: String)
    ensures
        text@ == depends_on_text(edges@),
{
    if edges.len() == 0 {
        return String::new();
    }
    let ghost items = Seq::new(edges.len() as nat, |i: int| dependency_text(edges@[i]));
    let mut lines: Vec<String> = Vec::new();
    let mut i: usize = 0;
    assert(string_views(lines@) =~= items.take(0));
    while i < edges.len()
        invariant
            i <= edges.len(),
            items == Seq::new(edges.len() as nat, |i: int| dependency_text(edges@[i])),
            string_views(lines@) == items.take(i as int),
        decreases edges.len() - i,
    {
        let line: String = render_dependency(&edges[i]);
        proof {
            lemma_string_views_push(lines@, line);
            assert(items.take(i + 1) =~= items.take(i as int).push(items[i as int]));
        }
        lines.push(line);
        i = i + 1;
    }
    assert(items.take(edges.len() as int) =~= items);
    let body: String = concat_strings(&lines);
    let mut text: String = String::from_str("        depends_on:\n");
    text.append(body.as_str());
    text
}

fn render_comment(id: &ServiceId) -> (text: String)
    ensures
        text@ == comment_of(*id),
{
    match id {
        ServiceId::Zookeeper { .. } => String::from_str("# Zookeeper for Pulsar"),
        ServiceId::ClusterInitJob { cluster } => {
            let name: String = cluster_name(*cluster);
            setting("# Pulsar init job for cluster ", name.as_str())
        },
        ServiceId::Bookie { cluster, .. } => {
            let name: String = cluster_name(*cluster);
            setting("# Bookie for cluster ", name.as_str())
        },
        ServiceId::Broker { cluster, .. } => {
            let name: String = cluster_name(*cluster);
            setting("# Pulsar broker for cluster ", name.as_str())
        },
        ServiceId::Proxy { cluster } => {
            let name: String = cluster_name(*cluster);
            setting("# Pulsar proxy for cluster ", name.as_str())
        },
        ServiceId::PostClusterRegistrationJob { cluster } => {
            let name: String = cluster_name(*cluster);
            setting("# Register new cluster ", name.as_str())
        },
    }
}

fn render_restart(id: &ServiceId) -> (text: &'static str)
    ensures
        text@ == restart_text(*id),
{
    match id {
        ServiceId::ClusterInitJob { .. } => {
            proof {
                reveal_strlit("");
            }
            assert(""@ =~= Seq::<char>::empty());
            ""
        },
        _ => "        restart: on-failure\n",
    }
}

/// Writes the descriptor entry of one service.
pub fn render_service(args: &PulsarInstanceConfig, node: &ServiceNode) -> (text: String)
    ensures
        text@ == service_text(args@, node@),
{
    let comment: String = render_comment(&node.id);
    let name: String = service_name(&node.id);
    let script: String = service_command(args, &node.id);
    let ports: String = render_ports(&node.ports);
    let settings: Vec<String> = service_environment(args, node);
    let environment: String = render_environment(&settings);
    let mounts: String = render_mounts(&node.id);
    let check: Option<HealthCheck> = health_check(&node.id);
    let probe: String = render_health_check(&check);
    let edges: String = render_depends_on(&node.depends_on);
    let network: String = network_name(args.name.as_str());
    let mut text: String = String::from_str("    ");
    text.append(comment.as_str());
    text.append("\n    ");
    text.append(name.as_str());
    text.append(":\n        image: apachepulsar/pulsar:");
    text.append(args.pulsar_version.as_str());
    text.append("\n        user: pulsar\n");
    text.append(render_restart(&node.id));
    text.append("        command: bash -c \"");
    text.append(script.as_str());
    text.append("\"\n");
    text.append(ports.as_str());
    text.append(environment.as_str());
    text.append(mounts.as_str());
    text.append(probe.as_str());
    text.append(edges.as_str());
    text.append("        networks:\n            - ");
    text.append(network.as_str());
    text.append("\n\n");
    text
}

} // verus!
