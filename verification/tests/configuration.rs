use puls::docker_compose::{generate_instance, generate_template};
use puls::instance_config::{
    validate_instance_name, ConfigError, InstanceConfig, PulsarInstanceConfig,
    DEFAULT_PULSAR_VERSION, MAX_CLUSTERS,
};

fn settings(clusters: u32, zookeepers: u32, bookies: u32, brokers: u32) -> InstanceConfig {
    InstanceConfig {
        pulsar_version: "3.2.2".to_string(),
        num_clusters: clusters,
        num_brokers: brokers,
        num_bookies: bookies,
        num_zookeepers: zookeepers,
        with_dekaf: false,
    }
}

#[test]
fn default_settings_are_one_of_everything() {
    let config = InstanceConfig::default();
    assert_eq!(config.pulsar_version, "3.2.2");
    assert_eq!(DEFAULT_PULSAR_VERSION, "3.2.2");
    assert_eq!(config.num_clusters, 1);
    assert_eq!(config.num_brokers, 1);
    assert_eq!(config.num_bookies, 1);
    assert_eq!(config.num_zookeepers, 1);
    assert!(config.with_dekaf);
}

#[test]
fn names_of_letters_digits_dashes_and_underscores_are_accepted() {
    assert_eq!(validate_instance_name("default"), Ok(()));
    assert_eq!(validate_instance_name("t1"), Ok(()));
    assert_eq!(validate_instance_name("A"), Ok(()));
    assert_eq!(validate_instance_name("-"), Ok(()));
    assert_eq!(validate_instance_name("_"), Ok(()));
    assert_eq!(validate_instance_name("0"), Ok(()));
    assert_eq!(validate_instance_name("azAZ09_-"), Ok(()));
    assert_eq!(
        validate_instance_name("pulsar-6f9619ff-8b86-d011-b42d-00c04fc964ff"),
        Ok(())
    );
}

#[test]
fn other_names_are_rejected() {
    let invalid = Err(ConfigError::InvalidInstanceName);
    assert_eq!(validate_instance_name(""), invalid);
    assert_eq!(validate_instance_name("bad name!"), invalid);
    assert_eq!(validate_instance_name("bad name"), invalid);
    assert_eq!(validate_instance_name("name!"), invalid);
    assert_eq!(validate_instance_name(" name"), invalid);
    assert_eq!(validate_instance_name("name\n"), invalid);
    assert_eq!(validate_instance_name("na\nme"), invalid);
    assert_eq!(validate_instance_name("a.b"), invalid);
    assert_eq!(validate_instance_name("a/b"), invalid);
    assert_eq!(validate_instance_name("caf\u{e9}"), invalid);
    assert_eq!(validate_instance_name("\u{430}"), invalid);
    assert_eq!(validate_instance_name("a{b"), invalid);
    assert_eq!(validate_instance_name("a@b"), invalid);
    assert_eq!(validate_instance_name("a[b"), invalid);
    assert_eq!(validate_instance_name("a`b"), invalid);
    assert_eq!(validate_instance_name("a:b"), invalid);
    assert_eq!(validate_instance_name("a,b"), invalid);
}

#[test]
fn a_valid_configuration_is_accepted() {
    let made = PulsarInstanceConfig::new("t1".to_string(), settings(1, 1, 1, 1)).unwrap();
    assert_eq!(
        made,
        PulsarInstanceConfig {
            name: "t1".to_string(),
            pulsar_version: "3.2.2".to_string(),
            num_clusters: 1,
            num_brokers: 1,
            num_bookies: 1,
            num_zookeepers: 1,
            with_dekaf: false,
        }
    );
    assert_eq!(made.validate(), Ok(()));
}

#[test]
fn the_management_ui_switch_is_carried_over() {
    let mut config = settings(1, 1, 1, 1);
    config.with_dekaf = true;
    let made = PulsarInstanceConfig::new("t1".to_string(), config).unwrap();
    assert!(made.with_dekaf);
}

#[test]
fn each_rule_has_its_error() {
    let new = |name: &str, config: InstanceConfig| {
        PulsarInstanceConfig::new(name.to_string(), config)
    };
    assert_eq!(new("bad name!", settings(1, 1, 1, 1)), Err(ConfigError::InvalidInstanceName));
    assert_eq!(new("ok", settings(0, 1, 1, 1)), Err(ConfigError::NoClusters));
    assert_eq!(new("ok", settings(11, 1, 1, 1)), Err(ConfigError::TooManyClusters));
    assert_eq!(new("ok", settings(1, 0, 1, 1)), Err(ConfigError::NoZookeepers));
    assert_eq!(new("ok", settings(1, 1, 0, 1)), Err(ConfigError::NoBookies));
    assert_eq!(new("ok", settings(1, 1, 1, 0)), Err(ConfigError::NoBrokers));
}

#[test]
fn the_first_broken_rule_is_named() {
    let new = |name: &str, config: InstanceConfig| {
        PulsarInstanceConfig::new(name.to_string(), config)
    };
    assert_eq!(new("", settings(0, 0, 0, 0)), Err(ConfigError::InvalidInstanceName));
    assert_eq!(new("ok", settings(0, 0, 0, 0)), Err(ConfigError::NoClusters));
    assert_eq!(new("ok", settings(12, 0, 0, 0)), Err(ConfigError::TooManyClusters));
    assert_eq!(new("ok", settings(2, 0, 0, 0)), Err(ConfigError::NoZookeepers));
    assert_eq!(new("ok", settings(2, 1, 0, 0)), Err(ConfigError::NoBookies));
}

#[test]
fn ten_clusters_are_the_most() {
    assert_eq!(MAX_CLUSTERS, 10);
    assert!(PulsarInstanceConfig::new("ok".to_string(), settings(10, 1, 1, 1)).is_ok());
    assert_eq!(
        PulsarInstanceConfig::new("ok".to_string(), settings(u32::MAX, 1, 1, 1)),
        Err(ConfigError::TooManyClusters)
    );
}

#[test]
fn every_error_has_a_message() {
    assert_eq!(
        ConfigError::InvalidInstanceName.message(),
        "Invalid instance name provided. Only alphanumeric characters, dashes, and underscores are allowed."
    );
    assert_eq!(ConfigError::NoClusters.message(), "An instance needs at least one cluster.");
    assert_eq!(ConfigError::TooManyClusters.message(), "An instance holds at most 10 clusters.");
    assert_eq!(
        ConfigError::NoZookeepers.message(),
        "An instance needs at least one ZooKeeper replica."
    );
    assert_eq!(ConfigError::NoBookies.message(), "A cluster needs at least one bookie.");
    assert_eq!(ConfigError::NoBrokers.message(), "A cluster needs at least one broker.");
    assert_eq!(ConfigError::NoSuchCluster.message(), "The instance has no cluster of that index.");
    assert_eq!(ConfigError::NoSuchReplica.message(), "The instance has no replica of that index.");
}

#[test]
fn an_invalid_name_fails_compilation() {
    let outcome = generate_instance("bad name!".to_string(), settings(1, 1, 1, 1));
    assert_eq!(outcome, Err(ConfigError::InvalidInstanceName));
    let args = PulsarInstanceConfig {
        name: "bad name!".to_string(),
        pulsar_version: "3.2.2".to_string(),
        num_clusters: 1,
        num_brokers: 1,
        num_bookies: 1,
        num_zookeepers: 1,
        with_dekaf: false,
    };
    assert_eq!(generate_template(&args), Err(ConfigError::InvalidInstanceName));
}

#[test]
fn a_zero_count_fails_compilation() {
    assert_eq!(generate_instance("ok".to_string(), settings(1, 1, 0, 1)), Err(ConfigError::NoBookies));
    assert_eq!(generate_instance("ok".to_string(), settings(0, 1, 1, 1)), Err(ConfigError::NoClusters));
    assert_eq!(
        generate_instance("ok".to_string(), settings(11, 1, 1, 1)),
        Err(ConfigError::TooManyClusters)
    );
}
