use puls::commands::{
    instance_or_default, CreateCommandArgs, CreateError, DeleteCommandArgs, DescribeCommandArgs,
    EditCommandArgs, ExecCommandArgs, LogsCommandArgs, PsCommandArgs, PurgeCommandArgs,
    SetDefaultClusterCommandArgs, SetDefaultInstanceCommandArgs, StartCommandArgs, StartFollowUp,
    StatsCommandArgs, StopCommandArgs, TemplateCommandArgs,
};
use puls::instance_config::InstanceConfig;

fn start(follow: bool, no_kill: bool, pull: bool) -> StartCommandArgs {
    StartCommandArgs { instance_name: None, follow, no_kill, pull, no_open_browser: false }
}

fn create(name: &str, overwrite: bool) -> CreateCommandArgs {
    CreateCommandArgs {
        instance_name: name.to_string(),
        instance_config: InstanceConfig::default(),
        overwrite,
    }
}

#[test]
fn a_named_instance_wins_over_the_default() {
    assert_eq!(instance_or_default(&Some("mine".to_string()), "default"), "mine");
    assert_eq!(instance_or_default(&None, "default"), "default");
    assert_eq!(EditCommandArgs { instance_name: None }.target("default"), "default");
    assert_eq!(TemplateCommandArgs { instance_name: Some("a".to_string()) }.target("d"), "a");
    assert_eq!(DescribeCommandArgs { instance_name: None }.target("d"), "d");
    assert_eq!(StatsCommandArgs { instance_name: Some("s".to_string()) }.target("d"), "s");
    assert_eq!(LogsCommandArgs { instance_name: None, follow: true }.target("d"), "d");
    assert_eq!(start(false, false, false).target("d"), "d");
}

#[test]
fn start_waits_in_the_background_unless_it_follows() {
    assert_eq!(
        start(false, false, false).compose_arguments(),
        vec!["up", "--remove-orphans", "--wait", "--detach"]
    );
    assert_eq!(start(true, false, false).compose_arguments(), vec!["up", "--remove-orphans"]);
}

#[test]
fn start_pulls_when_asked_to() {
    assert_eq!(
        start(false, false, true).compose_arguments(),
        vec!["up", "--remove-orphans", "--pull", "always", "--wait", "--detach"]
    );
    assert_eq!(
        start(true, true, true).compose_arguments(),
        vec!["up", "--remove-orphans", "--pull", "always"]
    );
}

#[test]
fn a_failed_start_is_stopped_unless_told_otherwise() {
    assert_eq!(start(false, false, false).follow_up(true), StartFollowUp::Report);
    assert_eq!(start(false, true, false).follow_up(true), StartFollowUp::Report);
    assert_eq!(start(false, false, false).follow_up(false), StartFollowUp::StopThenFail);
    assert_eq!(start(false, true, false).follow_up(false), StartFollowUp::Fail);
}

#[test]
fn logs_follow_when_asked_to() {
    let quiet = LogsCommandArgs { instance_name: None, follow: false };
    let following = LogsCommandArgs { instance_name: None, follow: true };
    assert_eq!(quiet.compose_arguments(), vec!["logs"]);
    assert_eq!(following.compose_arguments(), vec!["logs", "--follow"]);
}

#[test]
fn ps_and_stats_are_single_words() {
    assert_eq!(PsCommandArgs { instance_name: None }.compose_arguments(), vec!["ps"]);
    assert_eq!(StatsCommandArgs { instance_name: None }.compose_arguments(), vec!["stats"]);
}

#[test]
fn ps_lists_every_instance_unless_one_is_named() {
    let all = vec!["a".to_string(), "b".to_string()];
    assert_eq!(PsCommandArgs { instance_name: None }.targets(all.clone()), vec!["a", "b"]);
    assert_eq!(PsCommandArgs { instance_name: Some("c".to_string()) }.targets(all), vec!["c"]);
}

#[test]
fn stop_removes_then_takes_down() {
    let stop = StopCommandArgs { instance_name: None, all: false };
    assert_eq!(
        stop.compose_invocations(),
        vec![
            vec!["rm", "--stop", "--force"],
            vec!["down", "--remove-orphans", "--timeout", "60"],
        ]
    );
}

#[test]
fn stop_is_about_all_instances_or_one() {
    let all = vec!["a".to_string(), "b".to_string()];
    let everything = StopCommandArgs { instance_name: Some("x".to_string()), all: true };
    assert_eq!(everything.targets(all.clone(), "d"), vec!["a", "b"]);
    let named = StopCommandArgs { instance_name: Some("x".to_string()), all: false };
    assert_eq!(named.targets(all.clone(), "d"), vec!["x"]);
    let default = StopCommandArgs { instance_name: None, all: false };
    assert_eq!(default.targets(all, "d"), vec!["d"]);
}

#[test]
fn purge_takes_down_then_removes_with_volumes() {
    let purge = PurgeCommandArgs { instance_name: "a".to_string() };
    assert_eq!(
        purge.compose_invocations(),
        vec![
            vec!["down", "--remove-orphans", "--volumes"],
            vec!["rm", "--force", "--stop", "--volumes"],
        ]
    );
}

#[test]
fn delete_purges_the_same_instance() {
    let delete = DeleteCommandArgs { instance_name: "gone".to_string() };
    assert_eq!(delete.purge().instance_name, "gone");
}

#[test]
fn exec_runs_a_shell_in_the_proxy() {
    let exec = ExecCommandArgs {
        instance: None,
        command: vec!["pulsar-admin".to_string(), "tenants".to_string(), "list".to_string()],
        cluster: Some(2),
    };
    assert_eq!(
        exec.compose_arguments(0),
        vec![
            "exec",
            "--user",
            "pulsar",
            "pulsar-proxy-cluster-2",
            "bash",
            "-c",
            "export PATH=$PATH:/pulsar/bin; pulsar-admin tenants list",
        ]
    );
    assert_eq!(exec.target("default"), "default");
    assert_eq!(exec.target_cluster(0), 2);
}

#[test]
fn exec_falls_back_to_the_default_cluster() {
    let exec = ExecCommandArgs { instance: Some("i".to_string()), command: vec![], cluster: None };
    assert_eq!(exec.target_cluster(3), 3);
    assert_eq!(exec.target("default"), "i");
    let words = exec.compose_arguments(3);
    assert_eq!(words[3], "pulsar-proxy-cluster-3");
    assert_eq!(words[6], "export PATH=$PATH:/pulsar/bin; ");
}

#[test]
fn create_checks_the_name_before_anything_else() {
    assert_eq!(create("bad name!", false).check(false), Err(CreateError::InvalidInstanceName));
    assert_eq!(create("bad name!", true).check(true), Err(CreateError::InvalidInstanceName));
    assert_eq!(create("", true).check(false), Err(CreateError::InvalidInstanceName));
}

#[test]
fn create_overwrites_only_when_asked_to() {
    assert_eq!(create("ok", false).check(false), Ok(()));
    assert_eq!(create("ok", false).check(true), Err(CreateError::AlreadyExists));
    assert_eq!(create("ok", true).check(true), Ok(()));
    assert_eq!(create("ok", true).check(false), Ok(()));
}

#[test]
fn defaults_are_stored_as_text() {
    assert_eq!(SetDefaultInstanceCommandArgs { instance_name: "a".to_string() }.stored_text(), "a");
    assert_eq!(SetDefaultClusterCommandArgs { cluster_index: 0 }.stored_text(), "0");
    assert_eq!(SetDefaultClusterCommandArgs { cluster_index: 17 }.stored_text(), "17");
}
