//! The debug adapter: its binary, the kind of a debug request, and debug scenarios.

use vstd::prelude::*;

use crate::extension::MojoExtension;
use crate::json::{as_str, canonical, get, insert, json_parse, json_print, insert_entry, entries_model, lemma_array_model, lemma_object_model, Json, JsonValue};
use crate::keyed::pairs_model;
use crate::launch::{
    env_assignments, env_assignments_of,
    rewritten_config_text, str_value, str_values, string_values, texts_model,
};
use crate::sdk::resolved_sdk;
use crate::worktree::Worktree;

verus! {

broadcast use vstd::string::group_string_axioms;

/// Whether a debug session launches its debuggee or attaches to a running one.
#[derive(Clone, Copy, Debug, PartialEq, Eq, Structural)]
pub enum StartDebuggingRequestArgumentsRequest {
    Launch,
    Attach,
}

/// How to start a debug session with the adapter.
#[derive(Debug, PartialEq, Eq)]
pub struct StartDebuggingRequestArguments {
    /// The adapter's configuration, as JSON text.
    pub configuration: String,
    pub request: StartDebuggingRequestArgumentsRequest,
}

/// How to start the debug adapter and a debug session with it. The adapter is reached over
/// its standard streams: the extension gives no TCP connection.
#[derive(Debug, PartialEq, Eq)]
pub struct DebugAdapterBinary {
    pub command: Option<String>,
    pub arguments: Vec<String>,
    pub envs: Vec<(String, String)>,
    pub cwd: Option<String>,
    pub request_args: StartDebuggingRequestArguments,
}

/// The model of a `DebugAdapterBinary`.
pub struct DebugAdapterModel {
    pub command: Option<Seq<char>>,
    pub arguments: Seq<Seq<char>>,
    pub envs: Seq<(Seq<char>, Seq<char>)>,
    pub cwd: Option<Seq<char>>,
    pub configuration: Seq<char>,
    pub request: StartDebuggingRequestArgumentsRequest,
}

impl View for DebugAdapterBinary {
    type V = DebugAdapterModel;

    open spec fn view(&self) -> DebugAdapterModel {
        DebugAdapterModel {
            command: crate::sdk::opt_text(self.command),
            arguments: texts_model(self.arguments@),
            envs: pairs_model(self.envs@),
            cwd: crate::sdk::opt_text(self.cwd),
            configuration: self.request_args.configuration@,
            request: self.request_args.request,
        }
    }
}

/// A debug task as the editor gives it: its label, its adapter and its JSON configuration.
#[derive(Clone, Debug, PartialEq, Eq)]
pub struct DebugTaskDefinition {
    pub label: String,
    pub adapter: String,
    pub config: String,
}

/// The kind of request that a configuration asks for: attach where its `request` is the
/// string `attach`, launch otherwise.
pub open spec fn request_kind_of(config: Json) -> StartDebuggingRequestArgumentsRequest {
    if as_str(get(config, "request"@)) == Some("attach"@) {
        StartDebuggingRequestArgumentsRequest::Attach
    } else {
        StartDebuggingRequestArgumentsRequest::Launch
    }
}

/// The debug adapter binary for a task whose configuration text is `config`, or why there is
/// none: the user's adapter or the SDK's, in variable REPL mode, with the SDK's environment,
/// the rewritten configuration, and the request that the configuration asks for.
pub open spec fn adapter_binary(
    config: Seq<char>,
    user_path: Option<Seq<char>>,
    w: &Worktree,
    scripts: Seq<Seq<char>>,
) -> Result<DebugAdapterModel, Seq<char>> {
    match rewritten_config_text(config, w, scripts) {
        Err(e) => Err(e),
        Ok(c) => match resolved_sdk(w) {
            Err(e) => Err(e),
            Ok(sdk) => Ok(
                DebugAdapterModel {
                    command: Some(
                        match user_path {
                            Some(p) => p,
                            None => sdk.dap_path,
                        },
                    ),
                    arguments: seq!["--repl-mode"@, "variable"@],
                    envs: seq![
                        ("MODULAR_TELEMETRY_ENABLED"@, "false"@),
                        ("CONDA_PREFIX"@, sdk.env_root),
                        ("MOJO_SDK_PATH"@, sdk.env_root),
                    ],
                    cwd: None,
                    configuration: c,
                    request: match json_parse(config) {
                        Ok(j) => request_kind_of(j),
                        Err(_) => StartDebuggingRequestArgumentsRequest::Launch,
                    },
                },
            ),
        },
    }
}

/// The model of the outcome of finding the adapter binary.
pub open spec fn adapter_outcome(r: Result<DebugAdapterBinary, String>) -> Result<
    DebugAdapterModel,
    Seq<char>,
> {
    match r {
        Ok(b) => Ok(b@),
        Err(e) => Err(e@),
    }
}

/// A request to launch a program.
#[derive(Clone, Debug, PartialEq, Eq)]
pub struct LaunchRequest {
    pub program: String,
    pub cwd: Option<String>,
    pub args: Vec<String>,
    pub envs: Vec<(String, String)>,
}

/// A request to attach to a running process.
#[derive(Clone, Debug, PartialEq, Eq)]
pub struct AttachRequest {
    pub process_id: Option<u32>,
}

/// What a debug session is to do.
#[derive(Clone, Debug, PartialEq, Eq)]
pub enum DebugRequest {
    Launch(LaunchRequest),
    Attach(AttachRequest),
}

/// A debug session as set up in the editor's user interface.
#[derive(Clone, Debug, PartialEq, Eq)]
pub struct DebugConfig {
    pub label: String,
    pub adapter: String,
    pub request: DebugRequest,
    pub stop_on_entry: Option<bool>,
}

/// A debug scenario: its label, its adapter and its configuration for the adapter as JSON
/// text. The extension gives it no build task and no TCP connection.
#[derive(Clone, Debug, PartialEq, Eq)]
pub struct DebugScenario {
    pub label: String,
    pub adapter: String,
    pub config: String,
}

/// The adapter configuration for a debug request: for a launch, its program as `mojoFile`, its
/// arguments, its environment as `NAME=value` and its working directory where it has one;
/// for an attach, the process id where it has one.
pub open spec fn scenario_config(request: DebugRequest) -> Json {
    match request {
        DebugRequest::Launch(l) => {
            let base = seq![
                ("request"@, Json::Str("launch"@)),
                ("mojoFile"@, Json::Str(l.program@)),
                ("args"@, Json::Array(str_values(texts_model(l.args@)))),
                ("env"@, Json::Array(str_values(env_assignments(pairs_model(l.envs@))))),
            ];
            match l.cwd {
                Some(c) => Json::Object(insert(base, "cwd"@, Json::Str(c@))),
                None => Json::Object(base),
            }
        },
        DebugRequest::Attach(a) => {
            let base = seq![("request"@, Json::Str("attach"@))];
            match a.process_id {
                Some(pid) => Json::Object(insert(base, "pid"@, Json::Unsigned(pid as u64))),
                None => Json::Object(base),
            }
        },
    }
}

/// The kind of request that a configuration asks for.
fn request_kind(config: &JsonValue) -> (r: StartDebuggingRequestArgumentsRequest)
    ensures
        r == request_kind_of(config@),
{
    let attach = String::from_str("attach");
    match config.get("request") {
        Some(v) => match v.as_str() {
            Some(s) => {
                if (*s) == attach {
                    StartDebuggingRequestArgumentsRequest::Attach
                } else {
                    StartDebuggingRequestArgumentsRequest::Launch
                }
            },
            None => StartDebuggingRequestArgumentsRequest::Launch,
        },
        None => StartDebuggingRequestArgumentsRequest::Launch,
    }
}

impl MojoExtension {
    /// The debug adapter binary for a debug task: the user's adapter path or the SDK's
    /// `mojo-lldb-dap`, in variable REPL mode, with the task's configuration rewritten.
    pub fn get_dap_binary(
        &mut self,
        _adapter_name: String,
        config: DebugTaskDefinition,
        user_provided_debug_adapter_path: Option<String>,
        worktree: &Worktree,
        visualizer_scripts: &Vec<String>,
    ) -> (r: Result<DebugAdapterBinary, String>)
        ensures
            adapter_outcome(r) == adapter_binary(
                config.config@,
                crate::sdk::opt_text(user_provided_debug_adapter_path),
                worktree,
                texts_model(visualizer_scripts@),
            ),
            *final(self) == *old(self),
    {
        let rewritten_config = match self.rewrite_mojo_launch_config(
            config.config.as_str(),
            worktree,
            visualizer_scripts,
        ) {
            Ok(c) => c,
            Err(e) => {
                return Err(e);
            },
        };
        let sdk = match self.sdk(worktree) {
            Ok(s) => s,
            Err(e) => {
                return Err(e);
            },
        };
        let request = match JsonValue::from_text(config.config.as_str()) {
            Ok(json) => request_kind(&json),
            Err(_) => StartDebuggingRequestArgumentsRequest::Launch,
        };
        let command = match user_provided_debug_adapter_path {
            Some(path) => path,
            None => sdk.dap_path.clone(),
        };
        let mut arguments: Vec<String> = Vec::new();
        arguments.push(String::from_str("--repl-mode"));
        arguments.push(String::from_str("variable"));
        let mut envs: Vec<(String, String)> = Vec::new();
        envs.push((String::from_str("MODULAR_TELEMETRY_ENABLED"), String::from_str("false")));
        envs.push((String::from_str("CONDA_PREFIX"), sdk.env_root.clone()));
        envs.push((String::from_str("MOJO_SDK_PATH"), sdk.env_root.clone()));
        let r = DebugAdapterBinary {
            command: Some(command),
            arguments,
            envs,
            cwd: None,
            request_args: StartDebuggingRequestArguments {
                configuration: rewritten_config,
                request,
            },
        };
        assert(r@.arguments =~= seq!["--repl-mode"@, "variable"@]);
        assert(r@.envs =~= seq![
            ("MODULAR_TELEMETRY_ENABLED"@, "false"@),
            ("CONDA_PREFIX"@, sdk@.env_root),
            ("MOJO_SDK_PATH"@, sdk@.env_root),
        ]);
        Ok(r)
    }

    /// The kind of request that a debug configuration asks for: attach where its `request`
    /// is `attach`, launch otherwise.
    pub fn dap_request_kind(&mut self, _adapter_name: String, config: JsonValue) -> (r: Result<
        StartDebuggingRequestArgumentsRequest,
        String,
    >)
        ensures
            r == Ok::<StartDebuggingRequestArgumentsRequest, String>(request_kind_of(config@)),
            *final(self) == *old(self),
    {
        Ok(request_kind(&config))
    }

    /// The debug scenario for a debug session set up in the editor, with the adapter
    /// configuration written as JSON text.
    pub fn dap_config_to_scenario(&mut self, config: DebugConfig) -> (r: Result<DebugScenario, String>)
        ensures
            r matches Ok(s) && s.label == config.label && s.adapter == config.adapter
                && s.config@ == json_print(canonical(scenario_config(config.request))),
            *final(self) == *old(self),
    {
        let value = scenario_config_value(config.request);
        Ok(DebugScenario { label: config.label, adapter: config.adapter, config: value.to_text() })
    }
}

/// The adapter configuration for a debug request, as a JSON value.
pub fn scenario_config_value(request: DebugRequest) -> (r: JsonValue)
    ensures
        r@ == scenario_config(request),
{
        let mut entries: Vec<(String, JsonValue)> = Vec::new();
        match request {
            DebugRequest::Launch(launch) => {
                entries.push((String::from_str("request"), str_value("launch")));
                entries.push((String::from_str("mojoFile"), JsonValue::Str(launch.program)));
                let args = string_values(&launch.args);
                proof {
                    lemma_array_model(args);
                }
                entries.push((String::from_str("args"), JsonValue::Array(args)));
                let assignments = env_assignments_of(&launch.envs);
                let env = string_values(&assignments);
                proof {
                    lemma_array_model(env);
                }
                entries.push((String::from_str("env"), JsonValue::Array(env)));
                assert(entries_model(entries@) =~= seq![
                    ("request"@, Json::Str("launch"@)),
                    ("mojoFile"@, Json::Str(launch.program@)),
                    ("args"@, Json::Array(str_values(texts_model(launch.args@)))),
                    ("env"@, Json::Array(str_values(env_assignments(pairs_model(launch.envs@))))),
                ]);
                match launch.cwd {
                    Some(cwd) => {
                        insert_entry(&mut entries, "cwd", JsonValue::Str(cwd));
                    },
                    None => {},
                }
            },
            DebugRequest::Attach(attach) => {
                entries.push((String::from_str("request"), str_value("attach")));
                assert(entries_model(entries@) =~= seq![("request"@, Json::Str("attach"@))]);
                match attach.process_id {
                    Some(pid) => {
                        insert_entry(&mut entries, "pid", JsonValue::Unsigned(pid as u64));
                    },
                    None => {},
                }
            },
        }
        proof {
            lemma_object_model(entries);
        }
        JsonValue::Object(entries)
}

} // verus!
