//! The services of a deployment: what kinds there are, how one is identified
//! and what it is called in the descriptor.

use vstd::prelude::*;
use crate::text::{decimal_digits, decimal_string};

verus! {

/// The role that a service plays in a deployment.
#[derive(Clone, Copy, Debug, PartialEq, Eq, Structural)]
pub enum ServiceKind {
    Zookeeper,
    ClusterInitJob,
    Bookie,
    Broker,
    Proxy,
    PostClusterRegistrationJob,
}

/// What has to hold of a service before those that wait for it may start.
#[derive(Clone, Copy, Debug, PartialEq, Eq, Structural)]
pub enum Condition {
    /// Its health probe has passed.
    HealthCheckPassed,
    /// It has run to the end and exited with status zero.
    ExitedSuccessfully,
    /// Its process has been started.
    Started,
}

/// Identifies one service of an instance. The ZooKeeper ensemble serves every
/// cluster of the instance, so its replicas carry no cluster index; jobs and
/// proxies exist once per cluster and carry no replica index.
#[derive(Clone, Copy, Debug, PartialEq, Eq, Structural)]
pub enum ServiceId {
    Zookeeper { replica: u32 },
    ClusterInitJob { cluster: u32 },
    Bookie { cluster: u32, replica: u32 },
    Broker { cluster: u32, replica: u32 },
    Proxy { cluster: u32 },
    PostClusterRegistrationJob { cluster: u32 },
}

/// An edge of the service graph: wait until `target` has reached `condition`.
#[derive(Clone, Copy, Debug, PartialEq, Eq, Structural)]
pub struct Dependency {
    pub target: ServiceId,
    pub condition: Condition,
}

/// The persistent volume that keeps the ledgers of one bookie across restarts.
#[derive(Clone, Copy, Debug, PartialEq, Eq, Structural)]
pub struct Volume {
    pub cluster: u32,
    pub replica: u32,
}

impl ServiceId {
    /// The kind of the service.
    pub open spec fn kind_of(self) -> ServiceKind {
        match self {
            ServiceId::Zookeeper { .. } => ServiceKind::Zookeeper,
            ServiceId::ClusterInitJob { .. } => ServiceKind::ClusterInitJob,
            ServiceId::Bookie { .. } => ServiceKind::Bookie,
            ServiceId::Broker { .. } => ServiceKind::Broker,
            ServiceId::Proxy { .. } => ServiceKind::Proxy,
            ServiceId::PostClusterRegistrationJob { .. } => ServiceKind::PostClusterRegistrationJob,
        }
    }

    /// The cluster that the service belongs to, if it belongs to one.
    pub open spec fn cluster_of(self) -> Option<u32> {
        match self {
            ServiceId::Zookeeper { .. } => None,
            ServiceId::ClusterInitJob { cluster } => Some(cluster),
            ServiceId::Bookie { cluster, .. } => Some(cluster),
            ServiceId::Broker { cluster, .. } => Some(cluster),
            ServiceId::Proxy { cluster } => Some(cluster),
            ServiceId::PostClusterRegistrationJob { cluster } => Some(cluster),
        }
    }

    /// The replica number of the service, if it is one of several replicas.
    pub open spec fn replica_of(self) -> Option<u32> {
        match self {
            ServiceId::Zookeeper { replica } => Some(replica),
            ServiceId::Bookie { replica, .. } => Some(replica),
            ServiceId::Broker { replica, .. } => Some(replica),
            _ => None,
        }
    }

    /// The kind of the service.
    pub fn kind(&self) -> (kind: ServiceKind)
        ensures
            kind == self.kind_of(),
    {
        match self {
            ServiceId::Zookeeper { .. } => ServiceKind::Zookeeper,
            ServiceId::ClusterInitJob { .. } => ServiceKind::ClusterInitJob,
            ServiceId::Bookie { .. } => ServiceKind::Bookie,
            ServiceId::Broker { .. } => ServiceKind::Broker,
            ServiceId::Proxy { .. } => ServiceKind::Proxy,
            ServiceId::PostClusterRegistrationJob { .. } => ServiceKind::PostClusterRegistrationJob,
        }
    }

    /// The cluster that the service belongs to, if it belongs to one.
    pub fn cluster_index(&self) -> (cluster: Option<u32>)
        ensures
            cluster == self.cluster_of(),
    {
        match self {
            ServiceId::Zookeeper { .. } => None,
            ServiceId::ClusterInitJob { cluster } => Some(*cluster),
            ServiceId::Bookie { cluster, .. } => Some(*cluster),
            ServiceId::Broker { cluster, .. } => Some(*cluster),
            ServiceId::Proxy { cluster } => Some(*cluster),
            ServiceId::PostClusterRegistrationJob { cluster } => Some(*cluster),
        }
    }

    /// The replica number of the service, if it is one of several replicas.
    pub fn replica_index(&self) -> (replica: Option<u32>)
        ensures
            replica == self.replica_of(),
    {
        match self {
            ServiceId::Zookeeper { replica } => Some(*replica),
            ServiceId::Bookie { replica, .. } => Some(*replica),
            ServiceId::Broker { replica, .. } => Some(*replica),
            _ => None,
        }
    }
}

/// The condition that a service of this kind reaches when it is ready: a
/// one-shot job has to finish, every other service has to pass its probe.
pub open spec fn ready_condition_of(id: ServiceId) -> Condition {
    match id {
        ServiceId::ClusterInitJob { .. } => Condition::ExitedSuccessfully,
        ServiceId::PostClusterRegistrationJob { .. } => Condition::ExitedSuccessfully,
        _ => Condition::HealthCheckPassed,
    }
}

/// The condition that a service reaches when it is ready.
pub fn ready_condition(id: &ServiceId) -> (condition: Condition)
    ensures
        condition == ready_condition_of(*id),
{
    match id {
        ServiceId::ClusterInitJob { .. } => Condition::ExitedSuccessfully,
        ServiceId::PostClusterRegistrationJob { .. } => Condition::ExitedSuccessfully,
        _ => Condition::HealthCheckPassed,
    }
}

/// The word by which the descriptor names a condition.
pub open spec fn condition_word(condition: Condition) -> Seq<char> {
    match condition {
        Condition::HealthCheckPassed => "service_healthy"@,
        Condition::ExitedSuccessfully => "service_completed_successfully"@,
        Condition::Started => "service_started"@,
    }
}

/// The word by which the descriptor names a condition.
pub fn condition_keyword(condition: Condition) -> (word: &'static str)
    ensures
        word@ == condition_word(condition),
{
    match condition {
        Condition::HealthCheckPassed => "service_healthy",
        Condition::ExitedSuccessfully => "service_completed_successfully",
        Condition::Started => "service_started",
    }
}

/// The name of the cluster with the given index: `cluster-0`, `cluster-1`, ...
pub open spec fn cluster_name_of(cluster: nat) -> Seq<char> {
    "cluster-"@ + decimal_digits(cluster)
}

/// The name under which a service stands in the descriptor.
pub open spec fn service_name_of(id: ServiceId) -> Seq<char> {
    match id {
        ServiceId::Zookeeper { replica } => "zookeeper-"@ + decimal_digits(replica as nat),
        ServiceId::ClusterInitJob { cluster } => "pulsar-init-job-"@ + cluster_name_of(
            cluster as nat,
        ),
        ServiceId::Bookie { cluster, replica } => "bookie-"@ + cluster_name_of(cluster as nat)
            + "-"@ + decimal_digits(replica as nat),
        ServiceId::Broker { cluster, replica } => "broker-"@ + cluster_name_of(cluster as nat)
            + "-"@ + decimal_digits(replica as nat),
        ServiceId::Proxy { cluster } => "pulsar-proxy-"@ + cluster_name_of(cluster as nat),
        ServiceId::PostClusterRegistrationJob { cluster } => "pulsar-post-cluster-create-job-"@
            + cluster_name_of(cluster as nat),
    }
}

/// The name of the volume that keeps the data of a bookie.
pub open spec fn volume_name_of(cluster: nat, replica: nat) -> Seq<char> {
    "bookie-data-"@ + cluster_name_of(cluster) + "-"@ + decimal_digits(replica)
}

/// The name of the network that the services of an instance share.
pub open spec fn network_name_of(instance_name: Seq<char>) -> Seq<char> {
    "pulsar-net-"@ + instance_name
}

/// The name of the cluster with the given index.
pub fn cluster_name(cluster: u32) -> (name: String)
    ensures
        name@ == cluster_name_of(cluster as nat),
{
    let mut name: String = String::from_str("cluster-");
    let digits: String = decimal_string(cluster as u64);
    name.append(digits.as_str());
    name
}

fn with_cluster(prefix: &str, cluster: u32) -> (name: String)
    ensures
        name@ == prefix@ + cluster_name_of(cluster as nat),
{
    let mut name: String = String::from_str(prefix);
    let cluster_part: String = cluster_name(cluster);
    name.append(cluster_part.as_str());
    name
}

fn with_cluster_and_replica(prefix: &str, cluster: u32, replica: u32) -> (name: String)
    ensures
        name@ == prefix@ + cluster_name_of(cluster as nat) + "-"@ + decimal_digits(replica as nat),
{
    let mut name: String = with_cluster(prefix, cluster);
    name.append("-");
    let digits: String = decimal_string(replica as u64);
    name.append(digits.as_str());
    name
}

/// The name under which a service stands in the descriptor.
pub fn service_name(id: &ServiceId) -> (name: String)
    ensures
        name@ == service_name_of(*id),
{
    match id {
        ServiceId::Zookeeper { replica } => {
            let mut name: String = String::from_str("zookeeper-");
            let digits: String = decimal_string(*replica as u64);
            name.append(digits.as_str());
            name
        },
        ServiceId::ClusterInitJob { cluster } => with_cluster("pulsar-init-job-", *cluster),
        ServiceId::Bookie { cluster, replica } => with_cluster_and_replica(
            "bookie-",
            *cluster,
            *replica,
        ),
        ServiceId::Broker { cluster, replica } => with_cluster_and_replica(
            "broker-",
            *cluster,
            *replica,
        ),
        ServiceId::Proxy { cluster } => with_cluster("pulsar-proxy-", *cluster),
        ServiceId::PostClusterRegistrationJob { cluster } => with_cluster(
            "pulsar-post-cluster-create-job-",
            *cluster,
        ),
    }
}

/// The name of the volume that keeps the data of a bookie.
pub fn volume_name(cluster: u32, replica: u32) -> (name: String)
    ensures
        name@ == volume_name_of(cluster as nat, replica as nat),
{
    with_cluster_and_replica("bookie-data-", cluster, replica)
}

/// The name of the network that the services of an instance share.
pub fn network_name(instance_name: &str) -> (name: String)
    ensures
        name@ == network_name_of(instance_name@),
{
    let mut name: String = String::from_str("pulsar-net-");
    name.append(instance_name);
    name
}

} // verus!
