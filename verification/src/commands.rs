//! The commands of the command line: which instances each one is about and
//! what it asks of Docker Compose. Every list of words given here stands for
//! the arguments that follow `docker compose -f <descriptor file>`.

use vstd::prelude::*;
use crate::instance_config::{is_instance_name, validate_instance_name, InstanceConfig};
use crate::service::{service_name, service_name_of, ServiceId};
use crate::text::{
    decimal_digits, decimal_string, join_strings, joined, lemma_string_views_push, string_views,
};

verus! {

/// Creates the configuration of a new instance, or replaces that of an old one.
#[derive(Clone, Debug)]
pub struct CreateCommandArgs {
    pub instance_name: String,
    pub instance_config: InstanceConfig,
    pub overwrite: bool,
}

/// Opens the configuration of an instance in an editor.
#[derive(Clone, Debug)]
pub struct EditCommandArgs {
    pub instance_name: Option<String>,
}

/// Shows the logs of an instance.
#[derive(Clone, Debug)]
pub struct LogsCommandArgs {
    pub instance_name: Option<String>,
    /// Keep showing what is logged from now on.
    pub follow: bool,
}

/// Starts an instance.
#[derive(Clone, Debug)]
pub struct StartCommandArgs {
    pub instance_name: Option<String>,
    /// Stay attached and show the logs of the containers.
    pub follow: bool,
    /// Keep the containers when the instance fails to start.
    pub no_kill: bool,
    /// Pull the images before starting.
    pub pull: bool,
    /// Do not open the management UI in a browser once the instance is up.
    /// Nothing that is asked of Docker Compose depends on it.
    pub no_open_browser: bool,
}

/// Lists the containers of one instance, or of all of them.
#[derive(Clone, Debug)]
pub struct PsCommandArgs {
    pub instance_name: Option<String>,
}

/// Stops one instance, or all of them.
#[derive(Clone, Debug)]
pub struct StopCommandArgs {
    pub instance_name: Option<String>,
    pub all: bool,
}

/// Prints the descriptor of an instance.
#[derive(Clone, Debug)]
pub struct TemplateCommandArgs {
    pub instance_name: Option<String>,
}

/// Removes an instance with its data and its configuration.
#[derive(Clone, Debug)]
pub struct DeleteCommandArgs {
    pub instance_name: String,
}

/// Removes the data of an instance and keeps its configuration.
#[derive(Clone, Debug)]
pub struct PurgeCommandArgs {
    pub instance_name: String,
}

/// Shows how much of the machine the containers of an instance use.
#[derive(Clone, Debug)]
pub struct StatsCommandArgs {
    pub instance_name: Option<String>,
}

/// Describes an instance.
#[derive(Clone, Debug)]
pub struct DescribeCommandArgs {
    pub instance_name: Option<String>,
}

/// Makes an instance the one that commands are about when they name none.
#[derive(Clone, Debug)]
pub struct SetDefaultInstanceCommandArgs {
    pub instance_name: String,
}

/// Makes a cluster the one that `exec` runs in when it names none.
#[derive(Clone, Debug)]
pub struct SetDefaultClusterCommandArgs {
    pub cluster_index: u32,
}

/// Runs a command inside the proxy container of a cluster.
#[derive(Clone, Debug)]
pub struct ExecCommandArgs {
    pub instance: Option<String>,
    pub command: Vec<String>,
    pub cluster: Option<u32>,
}

/// Why a configuration is not written.
#[derive(Clone, Copy, Debug, PartialEq, Eq, Structural)]
pub enum CreateError {
    /// The name cannot name an instance.
    InvalidInstanceName,
    /// An instance of that name exists and is not to be overwritten.
    AlreadyExists,
}

/// What is left to do once Docker Compose has returned from starting an instance.
#[derive(Clone, Copy, Debug, PartialEq, Eq, Structural)]
pub enum StartFollowUp {
    /// The instance is up: report how to reach it.
    Report,
    /// The start failed: stop what is running, then report the failure.
    StopThenFail,
    /// The start failed and the containers are to be kept: report the failure.
    Fail,
}

/// The name that was given, or else the default.
pub open spec fn name_or_default(given: Option<String>, default_instance: Seq<char>) -> Seq<char> {
    match given {
        Some(name) => name@,
        None => default_instance,
    }
}

/// The instance that a command is about: the one it names, or else the default instance.
pub fn instance_or_default(given: &Option<String>, default_instance: &str) -> (name: String)
    ensures
        name@ == name_or_default(*given, default_instance@),
{
    match given {
        Some(name) => name.clone(),
        None => String::from_str(default_instance),
    }
}

/// What `start` asks of Docker Compose.
pub open spec fn start_words(pull: bool, follow: bool) -> Seq<Seq<char>> {
    seq!["up"@, "--remove-orphans"@] + (if pull {
        seq!["--pull"@, "always"@]
    } else {
        Seq::empty()
    }) + (if follow {
        Seq::empty()
    } else {
        seq!["--wait"@, "--detach"@]
    })
}

/// What `logs` asks of Docker Compose.
pub open spec fn logs_words(follow: bool) -> Seq<Seq<char>> {
    if follow {
        seq!["logs"@, "--follow"@]
    } else {
        seq!["logs"@]
    }
}

/// The two requests by which an instance is stopped: remove its containers,
/// then take down what is left within a minute.
pub open spec fn stop_words() -> Seq<Seq<Seq<char>>> {
    seq![
        seq!["rm"@, "--stop"@, "--force"@],
        seq!["down"@, "--remove-orphans"@, "--timeout"@, "60"@],
    ]
}

/// The two requests by which the data of an instance is removed: take it
/// down with its volumes, then remove what is left with its volumes.
pub open spec fn purge_words() -> Seq<Seq<Seq<char>>> {
    seq![
        seq!["down"@, "--remove-orphans"@, "--volumes"@],
        seq!["rm"@, "--force"@, "--stop"@, "--volumes"@],
    ]
}

/// The shell line that `exec` runs: the command's words with blanks between
/// them, with the Pulsar tools on the path.
pub open spec fn exec_line(command: Seq<Seq<char>>) -> Seq<char> {
    "export PATH=$PATH:/pulsar/bin; "@ + joined(command, " "@)
}

/// What `exec` asks of Docker Compose: a shell in the proxy of the cluster.
pub open spec fn exec_words(cluster: u32, command: Seq<Seq<char>>) -> Seq<Seq<char>> {
    seq![
        "exec"@,
        "--user"@,
        "pulsar"@,
        service_name_of(ServiceId::Proxy { cluster }),
        "bash"@,
        "-c"@,
        exec_line(command),
    ]
}

/// The texts of a list of lists of strings.
pub open spec fn word_lists(lists: Seq<Vec<String>>) -> Seq<Seq<Seq<char>>> {
    Seq::new(lists.len(), |i: int| string_views(lists[i]@))
}

fn push_word(words: &mut Vec<String>, word: &str)
    ensures
        string_views(final(words)@) == string_views(old(words)@).push(word@),
{
    let owned: String = String::from_str(word);
    proof {
        lemma_string_views_push(words@, owned);
    }
    words.push(owned);
}

impl CreateCommandArgs {
    /// Tells whether the configuration may be written, given whether an
    /// instance of that name exists. The name is looked at first.
    pub fn check(&self, already_exists: bool) -> (checked: Result<(), CreateError>)
        ensures
            checked == (if !is_instance_name(self.instance_name@) {
                Err::<(), CreateError>(CreateError::InvalidInstanceName)
            } else if already_exists && !self.overwrite {
                Err::<(), CreateError>(CreateError::AlreadyExists)
            } else {
                Ok::<(), CreateError>(())
            }),
    {
        match validate_instance_name(self.instance_name.as_str()) {
            Err(_) => Err(CreateError::InvalidInstanceName),
            Ok(()) => {
                if already_exists && !self.overwrite {
                    Err(CreateError::AlreadyExists)
                } else {
                    Ok(())
                }
            },
        }
    }
}

impl EditCommandArgs {
    /// The instance to edit.
    pub fn target(&self, default_instance: &str) -> (name: String)
        ensures
            name@ == name_or_default(self.instance_name, default_instance@),
    {
        instance_or_default(&self.instance_name, default_instance)
    }
}

impl TemplateCommandArgs {
    /// The instance whose descriptor is printed.
    pub fn target(&self, default_instance: &str) -> (name: String)
        ensures
            name@ == name_or_default(self.instance_name, default_instance@),
    {
        instance_or_default(&self.instance_name, default_instance)
    }
}

impl DescribeCommandArgs {
    /// The instance to describe.
    pub fn target(&self, default_instance: &str) -> (name: String)
        ensures
            name@ == name_or_default(self.instance_name, default_instance@),
    {
        instance_or_default(&self.instance_name, default_instance)
    }
}

impl StatsCommandArgs {
    /// The instance whose containers are measured.
    pub fn target(&self, default_instance: &str) -> (name: String)
        ensures
            name@ == name_or_default(self.instance_name, default_instance@),
    {
        instance_or_default(&self.instance_name, default_instance)
    }

    /// What the command asks of Docker Compose.
    pub fn compose_arguments(&self) -> (words: Vec<String>)
        ensures
            string_views(words@) == seq!["stats"@],
    {
        let mut words: Vec<String> = Vec::new();
        push_word(&mut words, "stats");
        assert(string_views(words@) =~= seq!["stats"@]);
        words
    }
}

impl LogsCommandArgs {
    /// The instance whose logs are shown.
    pub fn target(&self, default_instance: &str) -> (name: String)
        ensures
            name@ == name_or_default(self.instance_name, default_instance@),
    {
        instance_or_default(&self.instance_name, default_instance)
    }

    /// What the command asks of Docker Compose.
    pub fn compose_arguments(&self) -> (words: Vec<String>)
        ensures
            string_views(words@) == logs_words(self.follow),
    {
        let mut words: Vec<String> = Vec::new();
        push_word(&mut words, "logs");
        if self.follow {
            push_word(&mut words, "--follow");
        }
        assert(string_views(words@) =~= logs_words(self.follow));
        words
    }
}

impl StartCommandArgs {
    /// The instance to start.
    pub fn target(&self, default_instance: &str) -> (name: String)
        ensures
            name@ == name_or_default(self.instance_name, default_instance@),
    {
        instance_or_default(&self.instance_name, default_instance)
    }

    /// What the command asks of Docker Compose: bring the instance up, pull
    /// the images first if asked to, and wait in the background for the
    /// services to be healthy unless the logs are to be followed.
    pub fn compose_arguments(&self) -> (words: Vec<String>)
        ensures
            string_views(words@) == start_words(self.pull, self.follow),
    {
        let mut words: Vec<String> = Vec::new();
        push_word(&mut words, "up");
        push_word(&mut words, "--remove-orphans");
        if self.pull {
            push_word(&mut words, "--pull");
            push_word(&mut words, "always");
        }
        if !self.follow {
            push_word(&mut words, "--wait");
            push_word(&mut words, "--detach");
        }
        assert(string_views(words@) =~= start_words(self.pull, self.follow));
        words
    }

    /// What is left to do once Docker Compose has returned.
    pub fn follow_up(&self, succeeded: bool) -> (next: StartFollowUp)
        ensures
            next == (if succeeded {
                StartFollowUp::Report
            } else if self.no_kill {
                StartFollowUp::Fail
            } else {
                StartFollowUp::StopThenFail
            }),
    {
        if succeeded {
            StartFollowUp::Report
        } else if self.no_kill {
            StartFollowUp::Fail
        } else {
            StartFollowUp::StopThenFail
        }
    }
}

impl PsCommandArgs {
    /// The instances whose containers are listed: the one that is named, or
    /// else every instance there is.
    pub fn targets(&self, all_instances: Vec<String>) -> (names: Vec<String>)
        ensures
            string_views(names@) == (match self.instance_name {
                Some(name) => seq![name@],
                None => string_views(all_instances@),
            }),
    {
        match &self.instance_name {
            Some(name) => {
                let mut names: Vec<String> = Vec::new();
                push_word(&mut names, name.as_str());
                assert(string_views(names@) =~= seq![name@]);
                names
            },
            None => all_instances,
        }
    }

    /// What the command asks of Docker Compose.
    pub fn compose_arguments(&self) -> (words: Vec<String>)
        ensures
            string_views(words@) == seq!["ps"@],
    {
        let mut words: Vec<String> = Vec::new();
        push_word(&mut words, "ps");
        assert(string_views(words@) =~= seq!["ps"@]);
        words
    }
}

impl StopCommandArgs {
    /// The instances to stop: every instance there is if all are asked for,
    /// or else the one that is named, or else the default instance.
    pub fn targets(&self, all_instances: Vec<String>, default_instance: &str) -> (names: Vec<
        String,
    >)
        ensures
            string_views(names@) == (if self.all {
                string_views(all_instances@)
            } else {
                seq![name_or_default(self.instance_name, default_instance@)]
            }),
    {
        if self.all {
            all_instances
        } else {
            let name: String = instance_or_default(&self.instance_name, default_instance);
            let mut names: Vec<String> = Vec::new();
            push_word(&mut names, name.as_str());
            assert(string_views(names@) =~= seq![
                name_or_default(self.instance_name, default_instance@),
            ]);
            names
        }
    }

    /// What the command asks of Docker Compose for each instance, in this order.
    pub fn compose_invocations(&self) -> (requests: Vec<Vec<String>>)
        ensures
            word_lists(requests@) == stop_words(),
    {
        let mut remove: Vec<String> = Vec::new();
        push_word(&mut remove, "rm");
        push_word(&mut remove, "--stop");
        push_word(&mut remove, "--force");
        assert(string_views(remove@) =~= stop_words()[0]);
        let mut down: Vec<String> = Vec::new();
        push_word(&mut down, "down");
        push_word(&mut down, "--remove-orphans");
        push_word(&mut down, "--timeout");
        push_word(&mut down, "60");
        assert(string_views(down@) =~= stop_words()[1]);
        let mut requests: Vec<Vec<String>> = Vec::new();
        requests.push(remove);
        requests.push(down);
        assert(word_lists(requests@) =~= stop_words());
        requests
    }
}

impl PurgeCommandArgs {
    /// What the command asks of Docker Compose, in this order.
    pub fn compose_invocations(&self) -> (requests: Vec<Vec<String>>)
        ensures
            word_lists(requests@) == purge_words(),
    {
        let mut down: Vec<String> = Vec::new();
        push_word(&mut down, "down");
        push_word(&mut down, "--remove-orphans");
        push_word(&mut down, "--volumes");
        assert(string_views(down@) =~= purge_words()[0]);
        let mut remove: Vec<String> = Vec::new();
        push_word(&mut remove, "rm");
        push_word(&mut remove, "--force");
        push_word(&mut remove, "--stop");
        push_word(&mut remove, "--volumes");
        assert(string_views(remove@) =~= purge_words()[1]);
        let mut requests: Vec<Vec<String>> = Vec::new();
        requests.push(down);
        requests.push(remove);
        assert(word_lists(requests@) =~= purge_words());
        requests
    }
}

impl DeleteCommandArgs {
    /// The purge that comes before the instance's directory is removed.
    pub fn purge(&self) -> (purge: PurgeCommandArgs)
        ensures
            purge.instance_name@ == self.instance_name@,
    {
        PurgeCommandArgs { instance_name: self.instance_name.clone() }
    }
}

impl SetDefaultInstanceCommandArgs {
    /// What is stored as the default instance.
    pub fn stored_text(&self) -> (text: String)
        ensures
            text@ == self.instance_name@,
    {
        self.instance_name.clone()
    }
}

impl SetDefaultClusterCommandArgs {
    /// What is stored as the default cluster: its index as a decimal numeral.
    pub fn stored_text(&self) -> (text: String)
        ensures
            text@ == decimal_digits(self.cluster_index as nat),
    {
        decimal_string(self.cluster_index as u64)
    }
}

impl ExecCommandArgs {
    /// The instance to run the command in.
    pub fn target(&self, default_instance: &str) -> (name: String)
        ensures
            name@ == name_or_default(self.instance, default_instance@),
    {
        instance_or_default(&self.instance, default_instance)
    }

    /// The cluster to run the command in: the one that is named, or else the default cluster.
    pub fn target_cluster(&self, default_cluster: u32) -> (cluster: u32)
        ensures
            cluster == (match self.cluster {
                Some(c) => c,
                None => default_cluster,
            }),
    {
        match self.cluster {
            Some(c) => c,
            None => default_cluster,
        }
    }

    /// What the command asks of Docker Compose.
    pub fn compose_arguments(&self, default_cluster: u32) -> (words: Vec<String>)
        ensures
            string_views(words@) == exec_words(
                match self.cluster {
                    Some(c) => c,
                    None => default_cluster,
                },
                string_views(self.command@),
            ),
    {
        let cluster: u32 = self.target_cluster(default_cluster);
        let proxy: String = service_name(&ServiceId::Proxy { cluster });
        let command: String = join_strings(&self.command, " ");
        let mut line: String = String::from_str("export PATH=$PATH:/pulsar/bin; ");
        line.append(command.as_str());
        let mut words: Vec<String> = Vec::new();
        push_word(&mut words, "exec");
        push_word(&mut words, "--user");
        push_word(&mut words, "pulsar");
        push_word(&mut words, proxy.as_str());
        push_word(&mut words, "bash");
        push_word(&mut words, "-c");
        push_word(&mut words, line.as_str());
        assert(string_views(words@) =~= exec_words(cluster, string_views(self.command@)));
        words
    }
}

} // verus!
