//! The configuration of a Pulsar instance and the rules it has to meet.

use vstd::prelude::*;
use regex::Regex;

verus! {

/// The Pulsar release that an instance runs unless told otherwise.
pub const DEFAULT_PULSAR_VERSION: &'static str = "3.2.2";

/// The pattern that an instance name has to match from its first character to its last.
pub const INSTANCE_NAME_PATTERN: &'static str = "^[a-zA-Z0-9_-]+$";

/// The most clusters one instance may hold: a cluster's host ports begin
/// with its index, which has to stay a single digit.
pub const MAX_CLUSTERS: u32 = 10;

/// What is stored for an instance under its name: release and replica counts.
#[derive(Clone, Debug, PartialEq)]
pub struct InstanceConfig {
    pub pulsar_version: String,
    pub num_clusters: u32,
    pub num_brokers: u32,
    pub num_bookies: u32,
    pub num_zookeepers: u32,
    /// Whether the management UI is wanted for the instance.
    pub with_dekaf: bool,
}

impl Default for InstanceConfig {
    /// One cluster with one replica of everything, and the management UI switched on.
    fn default() -> (config: InstanceConfig)
        ensures
            config.pulsar_version@ == DEFAULT_PULSAR_VERSION@,
            config.num_clusters == 1,
            config.num_brokers == 1,
            config.num_bookies == 1,
            config.num_zookeepers == 1,
            config.with_dekaf,
    {
        InstanceConfig {
            pulsar_version: String::from_str(DEFAULT_PULSAR_VERSION),
            num_clusters: 1,
            num_brokers: 1,
            num_bookies: 1,
            num_zookeepers: 1,
            with_dekaf: true,
        }
    }
}

/// A named instance configuration: the input from which a deployment is compiled.
#[derive(Clone, Debug, PartialEq)]
pub struct PulsarInstanceConfig {
    pub name: String,
    pub pulsar_version: String,
    pub num_clusters: u32,
    /// Brokers in each cluster.
    pub num_brokers: u32,
    /// Bookies in each cluster.
    pub num_bookies: u32,
    /// Replicas of the ZooKeeper ensemble that all clusters of the instance share.
    pub num_zookeepers: u32,
    /// Whether the management UI is wanted for the instance. The service
    /// graph has no service for it; the switch is carried along unchanged.
    pub with_dekaf: bool,
}

/// The mathematical content of a [`PulsarInstanceConfig`].
pub struct Topology {
    pub name: Seq<char>,
    pub version: Seq<char>,
    pub clusters: nat,
    pub zookeepers: nat,
    pub bookies: nat,
    pub brokers: nat,
    pub aux_ui: bool,
}

impl View for PulsarInstanceConfig {
    type V = Topology;

    open spec fn view(&self) -> Topology {
        Topology {
            name: self.name@,
            version: self.pulsar_version@,
            clusters: self.num_clusters as nat,
            zookeepers: self.num_zookeepers as nat,
            bookies: self.num_bookies as nat,
            brokers: self.num_brokers as nat,
            aux_ui: self.with_dekaf,
        }
    }
}

/// Why a configuration, or what is asked of it, is turned down.
#[derive(Clone, Copy, Debug, PartialEq, Eq, Structural)]
pub enum ConfigError {
    /// The name is empty or holds a character other than a letter, a digit, `_` or `-`.
    InvalidInstanceName,
    /// No cluster is asked for.
    NoClusters,
    /// More clusters are asked for than host ports can be told apart.
    TooManyClusters,
    /// No ZooKeeper replica is asked for.
    NoZookeepers,
    /// No bookie is asked for.
    NoBookies,
    /// No broker is asked for.
    NoBrokers,
    /// A cluster is asked for that the configuration does not hold.
    NoSuchCluster,
    /// A replica is asked for that the configuration does not hold.
    NoSuchReplica,
}

/// The characters an instance name is made of: ASCII letters, digits, `_` and `-`.
pub open spec fn is_instance_name_char(c: char) -> bool {
    ('a' <= c && c <= 'z') || ('A' <= c && c <= 'Z') || ('0' <= c && c <= '9') || c == '_' || c
        == '-'
}

/// An instance name is one or more name characters and nothing else.
pub open spec fn is_instance_name(name: Seq<char>) -> bool {
    name.len() >= 1 && forall|i: int| 0 <= i < name.len() ==> is_instance_name_char(#[trigger] name[i])
}

/// The first rule that a configuration breaks, if any. The name is looked at
/// first, then the counts of clusters, ZooKeeper replicas, bookies and brokers.
pub open spec fn validation_error(t: Topology) -> Option<ConfigError> {
    if !is_instance_name(t.name) {
        Some(ConfigError::InvalidInstanceName)
    } else if t.clusters < 1 {
        Some(ConfigError::NoClusters)
    } else if t.clusters > MAX_CLUSTERS {
        Some(ConfigError::TooManyClusters)
    } else if t.zookeepers < 1 {
        Some(ConfigError::NoZookeepers)
    } else if t.bookies < 1 {
        Some(ConfigError::NoBookies)
    } else if t.brokers < 1 {
        Some(ConfigError::NoBrokers)
    } else {
        None
    }
}

/// The configuration that joins a name and stored settings.
pub open spec fn named_topology(name: Seq<char>, config: InstanceConfig) -> Topology {
    Topology {
        name,
        version: config.pulsar_version@,
        clusters: config.num_clusters as nat,
        zookeepers: config.num_zookeepers as nat,
        bookies: config.num_bookies as nat,
        brokers: config.num_brokers as nat,
        aux_ui: config.with_dekaf,
    }
}

/// The text shown to the user for each error.
pub open spec fn error_message(e: ConfigError) -> Seq<char> {
    match e {
        ConfigError::InvalidInstanceName =>
            "Invalid instance name provided. Only alphanumeric characters, dashes, and underscores are allowed."@,
        ConfigError::NoClusters => "An instance needs at least one cluster."@,
        ConfigError::TooManyClusters => "An instance holds at most 10 clusters."@,
        ConfigError::NoZookeepers => "An instance needs at least one ZooKeeper replica."@,
        ConfigError::NoBookies => "A cluster needs at least one bookie."@,
        ConfigError::NoBrokers => "A cluster needs at least one broker."@,
        ConfigError::NoSuchCluster => "The instance has no cluster of that index."@,
        ConfigError::NoSuchReplica => "The instance has no replica of that index."@,
    }
}

impl ConfigError {
    /// The text shown to the user for this error.
    pub fn message(&self) -> (text: String)
        ensures
            text@ == error_message(*self),
    {
        match self {
            ConfigError::InvalidInstanceName => String::from_str(
                "Invalid instance name provided. Only alphanumeric characters, dashes, and underscores are allowed.",
            ),
            ConfigError::NoClusters => String::from_str("An instance needs at least one cluster."),
            ConfigError::TooManyClusters => String::from_str(
                "An instance holds at most 10 clusters.",
            ),
            ConfigError::NoZookeepers => String::from_str(
                "An instance needs at least one ZooKeeper replica.",
            ),
            ConfigError::NoBookies => String::from_str("A cluster needs at least one bookie."),
            ConfigError::NoBrokers => String::from_str("A cluster needs at least one broker."),
            ConfigError::NoSuchCluster => String::from_str(
                "The instance has no cluster of that index.",
            ),
            ConfigError::NoSuchReplica => String::from_str(
                "The instance has no replica of that index.",
            ),
        }
    }
}

/// Runs the `regex` crate: `Regex::new` on `pattern`, then `Regex::is_match`
/// on `text`; `None` when the pattern does not compile.
///
/// Taken on trust from the crate's syntax reference, for the one pattern this
/// library uses: `^` and `$` match only at the two ends of the text, the
/// bracketed class holds the ranges `a-z`, `A-Z`, `0-9` and the characters `_`
/// and `-`, and `+` asks for one or more of them. So `^[a-zA-Z0-9_-]+$`
/// compiles, and it matches exactly the texts that are instance names.
#[verifier::external_body]
fn regex_is_match(pattern: &str, text: &str) -> (matched: Option<bool>)
    ensures
        pattern@ == INSTANCE_NAME_PATTERN@ ==> matched == Some(is_instance_name(text@)),
{
    match Regex::new(pattern) {
        Ok(re) => Some(re.is_match(text)),
        Err(_) => None,
    }
}

/// Tells whether `name` can name an instance.
pub fn validate_instance_name(name: &str) -> (checked: Result<(), ConfigError>)
    ensures
        checked is Ok <==> is_instance_name(name@),
        checked is Err ==> checked == Err::<(), ConfigError>(ConfigError::InvalidInstanceName),
{
    match regex_is_match(INSTANCE_NAME_PATTERN, name) {
        Some(true) => Ok(()),
        _ => Err(ConfigError::InvalidInstanceName),
    }
}

impl PulsarInstanceConfig {
    /// Whether the configuration meets every rule.
    pub open spec fn valid(&self) -> bool {
        validation_error(self@) is None
    }

    /// Checks the configuration against every rule and names the first one broken.
    pub fn validate(&self) -> (checked: Result<(), ConfigError>)
        ensures
            match validation_error(self@) {
                Some(e) => checked == Err::<(), ConfigError>(e),
                None => checked is Ok,
            },
    {
        match validate_instance_name(self.name.as_str()) {
            Err(e) => Err(e),
            Ok(()) => {
                if self.num_clusters < 1 {
                    Err(ConfigError::NoClusters)
                } else if self.num_clusters > MAX_CLUSTERS {
                    Err(ConfigError::TooManyClusters)
                } else if self.num_zookeepers < 1 {
                    Err(ConfigError::NoZookeepers)
                } else if self.num_bookies < 1 {
                    Err(ConfigError::NoBookies)
                } else if self.num_brokers < 1 {
                    Err(ConfigError::NoBrokers)
                } else {
                    Ok(())
                }
            },
        }
    }

    /// Joins a name and stored settings into a configuration, or says which rule
    /// the result would break.
    pub fn new(name: String, config: InstanceConfig) -> (made: Result<
        PulsarInstanceConfig,
        ConfigError,
    >)
        ensures
            match validation_error(named_topology(name@, config)) {
                Some(e) => made matches Err(err) && err == e,
                None => made matches Ok(c) && c@ == named_topology(name@, config) && c.valid(),
            },
    {
        let candidate = PulsarInstanceConfig {
            name,
            pulsar_version: config.pulsar_version,
            num_clusters: config.num_clusters,
            num_brokers: config.num_brokers,
            num_bookies: config.num_bookies,
            num_zookeepers: config.num_zookeepers,
            with_dekaf: config.with_dekaf,
        };
        match candidate.validate() {
            Ok(()) => Ok(candidate),
            Err(e) => Err(e),
        }
    }
}

} // verus!
