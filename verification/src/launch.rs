//! The process launcher: the worker's command line and environment, built
//! from the directory that holds its resources.

use crate::forward::Forwarder;
use vstd::prelude::*;
use vstd::string::*;

verus! {

/// What is needed to start a worker: the program, its arguments in order, and
/// the environment variables to set for it.
#[derive(Clone, Debug, PartialEq, Eq)]
pub struct WorkerConfig {
    pub program: String,
    pub args: Vec<String>,
    pub envs: Vec<(String, String)>,
}

/// The mathematical content of a [`WorkerConfig`].
pub struct WorkerConfigModel {
    pub program: Seq<char>,
    pub args: Seq<Seq<char>>,
    pub envs: Seq<(Seq<char>, Seq<char>)>,
}

impl View for WorkerConfig {
    type V = WorkerConfigModel;

    open spec fn view(&self) -> WorkerConfigModel {
        WorkerConfigModel {
            program: self.program@,
            args: self.args@.map_values(|a: String| a@),
            envs: self.envs@.map_values(|e: (String, String)| (e.0@, e.1@)),
        }
    }
}

/// The configuration of a worker whose resources are in `resource_dir`: its
/// main service and its event worker are the subdirectories `main` and
/// `event` of that directory.
pub open spec fn launch_model(resource_dir: Seq<char>) -> WorkerConfigModel {
    config_model(
        resource_dir,
        joined_path(resource_dir, "main"@),
        joined_path(resource_dir, "event"@),
    )
}

/// The configuration of a worker whose resources are in `resource_dir`, with
/// its main service at `main_service` and its event worker at `event_worker`.
pub open spec fn config_model(
    resource_dir: Seq<char>,
    main_service: Seq<char>,
    event_worker: Seq<char>,
) -> WorkerConfigModel {
    WorkerConfigModel {
        program: "edge-runtime"@,
        args: seq![
            "start"@,
            "--main-service"@,
            main_service,
            "--event-worker"@,
            event_worker,
        ],
        envs: seq![("SERVICE_BASE_DIR"@, resource_dir)],
    }
}

/// No environment variable is named twice.
pub open spec fn names_unique(envs: Seq<(Seq<char>, Seq<char>)>) -> bool {
    forall|i: int, j: int|
        0 <= i < envs.len() && 0 <= j < envs.len() && i != j ==> (#[trigger] envs[i]).0 != (
        #[trigger] envs[j]).0
}

/// The path of `child` under `base`, by the path rules of the platform that
/// the library is built for.
pub uninterp spec fn joined_path(base: Seq<char>, child: Seq<char>) -> Seq<char>;

/// Calls `std::path::Path::join` on `base` with `child` and takes the result
/// as text. Trusted: the result is a function of the two texts alone, named
/// `joined_path`. The call accepts every pair of texts.
#[verifier::external_body]
fn join_path(base: &str, child: &str) -> (joined: String)
    ensures
        joined@ == joined_path(base@, child@),
{
    std::path::Path::new(base).join(child).to_string_lossy().into_owned()
}

impl WorkerConfig {
    /// The configuration is valid: no environment variable is named twice.
    pub open spec fn well_formed(&self) -> bool {
        names_unique(self@.envs)
    }

    /// Builds the configuration from the resource directory and the two
    /// paths derived from it.
    pub fn new(resource_dir: &str, main_service: &str, event_worker: &str) -> (config: WorkerConfig)
        ensures
            config@ == config_model(resource_dir@, main_service@, event_worker@),
            config.well_formed(),
    {
        let mut args: Vec<String> = Vec::new();
        args.push(String::from_str("start"));
        args.push(String::from_str("--main-service"));
        args.push(String::from_str(main_service));
        args.push(String::from_str("--event-worker"));
        args.push(String::from_str(event_worker));
        let mut envs: Vec<(String, String)> = Vec::new();
        envs.push((String::from_str("SERVICE_BASE_DIR"), String::from_str(resource_dir)));
        let config = WorkerConfig { program: String::from_str("edge-runtime"), args, envs };
        assert(config@.args =~= config_model(
            resource_dir@,
            main_service@,
            event_worker@,
        ).args);
        assert(config@.envs =~= config_model(
            resource_dir@,
            main_service@,
            event_worker@,
        ).envs);
        config
    }

    /// Builds the configuration for a resource directory: the main service
    /// and the event worker are its subdirectories `main` and `event`.
    pub fn for_resource_dir(resource_dir: &str) -> (config: WorkerConfig)
        ensures
            config@ == launch_model(resource_dir@),
            config.well_formed(),
    {
        let main_service = join_path(resource_dir, "main");
        let event_worker = join_path(resource_dir, "event");
        WorkerConfig::new(resource_dir, main_service.as_str(), event_worker.as_str())
    }
}

/// What a launch consists of: the worker to start, the forwarder that will
/// drain its stream, and the reply for the caller.
#[derive(Clone, Debug, PartialEq, Eq)]
pub struct Launch {
    pub config: WorkerConfig,
    pub forwarder: Forwarder,
    pub reply: String,
}

/// Plans the launch of a worker whose resources are in `resource_dir`. It
/// always succeeds: each launch gets a configuration and a running forwarder
/// of its own, and the reply `OK`.
pub fn start_edge_runtime(resource_dir: &str) -> (outcome: Result<Launch, ()>)
    ensures
        outcome matches Ok(launch) && {
            &&& launch.config@ == launch_model(resource_dir@)
            &&& launch.config.well_formed()
            &&& !launch.forwarder.stopped()
            &&& launch.reply@ == "OK"@
        },
{
    let config = WorkerConfig::for_resource_dir(resource_dir);
    Ok(Launch { config, forwarder: Forwarder::new(), reply: String::from_str("OK") })
}

} // verus!
