//! Properties of the extension that span its functions.

use vstd::prelude::*;

use crate::json::{as_str, get, has_key, insert, json_parse, lemma_lookup_insert, lemma_lookup_remove, lookup, remove, Json};
use crate::launch::{
    frame_format, init_commands, launch_args, launch_env, lemma_with_default, rewritten_config, rewritten_config_text,
    rewritten_entries, str_values, string_items, with_debugger_defaults, with_default,
    LaunchConfigModel,
};
use crate::dap::{
    adapter_binary, request_kind_of, scenario_config, DebugRequest,
    StartDebuggingRequestArgumentsRequest,
};
use crate::keyed::{key_position, lemma_key_position, lemma_value_of_push, lemma_value_of_update, pairs_model, value_of};
use crate::lsp::{exports_sdk_env, server_bin_dir, server_command, server_env_root, with_path_prefix};
use crate::platform::{library_extension_of, Os};
use crate::sdk::{
    discovered_env_root, is_local_pixi_project, no_lsp_message, resolved_sdk, root_of_mojo_binary,
    SdkPaths,
};
use crate::settings::{binary_env_setting, binary_path_setting, sdk_path_setting};
use crate::worktree::which_path;
use crate::worktree::Worktree;

verus! {

/// The keys that rewriting sets only where the configuration leaves them out.
pub open spec fn is_default_key(k: Seq<char>) -> bool {
    k == "runInTerminal"@ || k == "stopOnEntry"@ || k == "customFrameFormat"@
        || k == "enableSyntheticChildDebugging"@ || k == "enableAutoVariableSummaries"@
        || k == "commandEscapePrefix"@ || k == "timeout"@
}

/// The value that rewriting gives a default key where the configuration leaves it out.
pub open spec fn default_value(k: Seq<char>) -> Json {
    if k == "runInTerminal"@ || k == "stopOnEntry"@ {
        Json::Bool(false)
    } else if k == "customFrameFormat"@ {
        Json::Str(frame_format())
    } else if k == "enableSyntheticChildDebugging"@ || k == "enableAutoVariableSummaries"@ {
        Json::Bool(true)
    } else if k == "commandEscapePrefix"@ {
        Json::Str(":"@)
    } else {
        Json::Unsigned(300)
    }
}

/// The lengths and first characters of the keys that rewriting handles, which tell them apart.
proof fn reveal_keys()
    ensures
        "program"@.len() == 7 && "program"@[0] == 'p',
        "args"@.len() == 4 && "args"@[0] == 'a',
        "env"@.len() == 3 && "env"@[0] == 'e',
        "debuggerRoot"@.len() == 12 && "debuggerRoot"@[0] == 'd',
        "type"@.len() == 4 && "type"@[0] == 't',
        "initCommands"@.len() == 12 && "initCommands"@[0] == 'i',
        "runInTerminal"@.len() == 13 && "runInTerminal"@[0] == 'r',
        "stopOnEntry"@.len() == 11 && "stopOnEntry"@[0] == 's',
        "customFrameFormat"@.len() == 17 && "customFrameFormat"@[0] == 'c',
        "enableSyntheticChildDebugging"@.len() == 29 && "enableSyntheticChildDebugging"@[0] == 'e',
        "enableAutoVariableSummaries"@.len() == 27 && "enableAutoVariableSummaries"@[0] == 'e',
        "commandEscapePrefix"@.len() == 19 && "commandEscapePrefix"@[0] == 'c',
        "timeout"@.len() == 7 && "timeout"@[0] == 't',
        "buildArgs"@.len() == 9 && "buildArgs"@[0] == 'b',
        "mojoFile"@.len() == 8 && "mojoFile"@[0] == 'm',
{
    reveal_strlit("program");
    reveal_strlit("args");
    reveal_strlit("env");
    reveal_strlit("debuggerRoot");
    reveal_strlit("type");
    reveal_strlit("initCommands");
    reveal_strlit("runInTerminal");
    reveal_strlit("stopOnEntry");
    reveal_strlit("customFrameFormat");
    reveal_strlit("enableSyntheticChildDebugging");
    reveal_strlit("enableAutoVariableSummaries");
    reveal_strlit("commandEscapePrefix");
    reveal_strlit("timeout");
    reveal_strlit("buildArgs");
    reveal_strlit("mojoFile");
}

/// What the debugger defaults do to the value and presence of each key.
proof fn lemma_debugger_defaults(e: Seq<(Seq<char>, Json)>, k: Seq<char>)
    ensures
        lookup(with_debugger_defaults(e), k) == if is_default_key(k) && !has_key(e, k) {
            Some(default_value(k))
        } else {
            lookup(e, k)
        },
        has_key(with_debugger_defaults(e), k) == (has_key(e, k) || is_default_key(k)),
{
    reveal_keys();
    let e1 = with_default(e, "runInTerminal"@, Json::Bool(false));
    let e2 = with_default(e1, "stopOnEntry"@, Json::Bool(false));
    let e3 = with_default(e2, "customFrameFormat"@, Json::Str(frame_format()));
    let e4 = with_default(e3, "enableSyntheticChildDebugging"@, Json::Bool(true));
    let e5 = with_default(e4, "enableAutoVariableSummaries"@, Json::Bool(true));
    let e6 = with_default(e5, "commandEscapePrefix"@, Json::Str(":"@));
    lemma_with_default(e, "runInTerminal"@, Json::Bool(false), k);
    lemma_with_default(e1, "stopOnEntry"@, Json::Bool(false), k);
    lemma_with_default(e2, "customFrameFormat"@, Json::Str(frame_format()), k);
    lemma_with_default(e3, "enableSyntheticChildDebugging"@, Json::Bool(true), k);
    lemma_with_default(e4, "enableAutoVariableSummaries"@, Json::Bool(true), k);
    lemma_with_default(e5, "commandEscapePrefix"@, Json::Str(":"@), k);
    lemma_with_default(e6, "timeout"@, Json::Unsigned(300), k);
}

/// Rewriting a launch configuration that names a `mojoFile` gives an object in which every key
/// has a known value: `program` is the SDK's `mojo`; `args` is `run --no-optimization
/// --debug-level full`, then the string build arguments, the file, and the string arguments;
/// `env` is the launch environment; `debuggerRoot` is the worktree root; `type` is
/// `mojo-lldb`; `initCommands` are the debugger's start-up commands; `mojoFile` and `buildArgs`
/// are gone; each debugger setting keeps the configuration's value, or gets its default where
/// the configuration leaves it out; every other key keeps the configuration's value.
pub proof fn law_rewritten_launch_config(
    config: Seq<char>,
    obj: Seq<(Seq<char>, Json)>,
    w: &Worktree,
    scripts: Seq<Seq<char>>,
    k: Seq<char>,
)
    requires
        resolved_sdk(w) is Ok,
        as_str(lookup(obj, "mojoFile"@)) is Some,
    ensures
        ({
            let sdk = resolved_sdk(w)->Ok_0;
            let file = as_str(lookup(obj, "mojoFile"@))->0;
            rewritten_config(config, Ok(Json::Object(obj)), w, scripts) matches Ok(
                LaunchConfigModel::Rewritten(Json::Object(out)),
            ) && lookup(out, k) == if k == "program"@ {
                Some(Json::Str(sdk.mojo_path))
            } else if k == "args"@ {
                Some(
                    Json::Array(
                        str_values(
                            launch_args(
                                string_items(lookup(obj, "buildArgs"@)),
                                file,
                                string_items(lookup(obj, "args"@)),
                            ),
                        ),
                    ),
                )
            } else if k == "env"@ {
                Some(
                    Json::Array(
                        launch_env(obj, sdk.env_root, crate::keyed::pairs_model(w.shell_env@)),
                    ),
                )
            } else if k == "debuggerRoot"@ {
                Some(Json::Str(w.root_path@))
            } else if k == "type"@ {
                Some(Json::Str("mojo-lldb"@))
            } else if k == "initCommands"@ {
                Some(
                    Json::Array(
                        init_commands(
                            with_debugger_defaults(
                                insert(
                                    insert(
                                        insert(
                                            insert(
                                                insert(obj, "program"@, Json::Str(sdk.mojo_path)),
                                                "args"@,
                                                Json::Array(
                                                    str_values(
                                                        launch_args(
                                                            string_items(
                                                                lookup(obj, "buildArgs"@),
                                                            ),
                                                            file,
                                                            string_items(lookup(obj, "args"@)),
                                                        ),
                                                    ),
                                                ),
                                            ),
                                            "env"@,
                                            Json::Array(
                                                launch_env(
                                                    obj,
                                                    sdk.env_root,
                                                    crate::keyed::pairs_model(w.shell_env@),
                                                ),
                                            ),
                                        ),
                                        "debuggerRoot"@,
                                        Json::Str(w.root_path@),
                                    ),
                                    "type"@,
                                    Json::Str("mojo-lldb"@),
                                ),
                            ),
                            sdk,
                            scripts,
                        ),
                    ),
                )
            } else if k == "mojoFile"@ || k == "buildArgs"@ {
                None
            } else if is_default_key(k) && !has_key(obj, k) {
                Some(default_value(k))
            } else {
                lookup(obj, k)
            }
        }),
{
    reveal_keys();
    let sdk = resolved_sdk(w)->Ok_0;
    let file = as_str(lookup(obj, "mojoFile"@))->0;
    let shell = crate::keyed::pairs_model(w.shell_env@);
    let v_args = Json::Array(
        str_values(
            launch_args(
                string_items(lookup(obj, "buildArgs"@)),
                file,
                string_items(lookup(obj, "args"@)),
            ),
        ),
    );
    let v_env = Json::Array(launch_env(obj, sdk.env_root, shell));
    let e1 = insert(obj, "program"@, Json::Str(sdk.mojo_path));
    let e2 = insert(e1, "args"@, v_args);
    let e3 = insert(e2, "env"@, v_env);
    let e4 = insert(e3, "debuggerRoot"@, Json::Str(w.root_path@));
    let e5 = insert(e4, "type"@, Json::Str("mojo-lldb"@));
    let e6 = with_debugger_defaults(e5);
    let v_init = Json::Array(init_commands(e6, sdk, scripts));
    let e7 = insert(e6, "initCommands"@, v_init);
    let e8 = remove(e7, "buildArgs"@);
    let e9 = remove(e8, "mojoFile"@);
    assert(e9 == rewritten_entries(obj, file, sdk, w.root_path@, shell, scripts));
    lemma_lookup_insert(obj, "program"@, Json::Str(sdk.mojo_path), k);
    lemma_lookup_insert(e1, "args"@, v_args, k);
    lemma_lookup_insert(e2, "env"@, v_env, k);
    lemma_lookup_insert(e3, "debuggerRoot"@, Json::Str(w.root_path@), k);
    lemma_lookup_insert(e4, "type"@, Json::Str("mojo-lldb"@), k);
    lemma_debugger_defaults(e5, k);
    lemma_lookup_insert(e6, "initCommands"@, v_init, k);
    lemma_lookup_remove(e7, "buildArgs"@, k);
    lemma_lookup_remove(e8, "mojoFile"@, k);
    assert(rewritten_config(config, Ok(Json::Object(obj)), w, scripts) == Ok::<
        LaunchConfigModel,
        Seq<char>,
    >(LaunchConfigModel::Rewritten(Json::Object(e9))));
}

/// A rewritten launch configuration names no `mojoFile`, so rewriting it again leaves its text
/// as it is.
pub proof fn law_rewrite_settles(
    config: Seq<char>,
    obj: Seq<(Seq<char>, Json)>,
    w: &Worktree,
    scripts: Seq<Seq<char>>,
    again: Seq<char>,
)
    requires
        resolved_sdk(w) is Ok,
        as_str(lookup(obj, "mojoFile"@)) is Some,
    ensures
        rewritten_config(config, Ok(Json::Object(obj)), w, scripts) matches Ok(
            LaunchConfigModel::Rewritten(out),
        ) && rewritten_config(again, Ok(out), w, scripts) == Ok::<LaunchConfigModel, Seq<char>>(
            LaunchConfigModel::Verbatim(again),
        ),
{
    reveal_keys();
    law_rewritten_launch_config(config, obj, w, scripts, "mojoFile"@);
}

/// The configuration of a debug scenario asks for the request that the scenario was set up
/// with: attach for an attach request, launch for a launch request.
pub proof fn law_scenario_request_kind(request: DebugRequest)
    ensures
        request_kind_of(scenario_config(request)) == match request {
            DebugRequest::Launch(_) => StartDebuggingRequestArgumentsRequest::Launch,
            DebugRequest::Attach(_) => StartDebuggingRequestArgumentsRequest::Attach,
        },
{
    reveal_strlit("request");
    reveal_strlit("launch");
    reveal_strlit("attach");
    reveal_strlit("cwd");
    reveal_strlit("pid");
    assert("request"@.len() == 7 && "cwd"@.len() == 3 && "pid"@.len() == 3);
    match request {
        DebugRequest::Launch(l) => {
            let base = seq![
                ("request"@, Json::Str("launch"@)),
                ("mojoFile"@, Json::Str(l.program@)),
                ("args"@, Json::Array(str_values(crate::launch::texts_model(l.args@)))),
                (
                    "env"@,
                    Json::Array(
                        str_values(crate::launch::env_assignments(pairs_model(l.envs@))),
                    ),
                ),
            ];
            crate::keyed::lemma_key_position_is(base, "request"@, 0);
            assert(lookup(base, "request"@) == Some(Json::Str("launch"@)));
            assert("launch"@[0] != "attach"@[0]);
            if let Some(c) = l.cwd {
                lemma_lookup_insert(base, "cwd"@, Json::Str(c@), "request"@);
            }
        },
        DebugRequest::Attach(a) => {
            let base = seq![("request"@, Json::Str("attach"@))];
            crate::keyed::lemma_key_position_is(base, "request"@, 0);
            if let Some(pid) = a.process_id {
                lemma_lookup_insert(
                    base,
                    "pid"@,
                    Json::Unsigned(pid as u64),
                    "request"@,
                );
            }
        },
    }
}

/// Where `mojo_sdk_path` is set, every tool is taken from that SDK: the language server (unless
/// a binary path overrides it), the debug adapter, `mojo`, the LLDB plugin and visualizers,
/// and the SDK is the environment root.
pub proof fn law_sdk_path_setting(w: &Worktree)
    requires
        sdk_path_setting(w.lsp_settings) is Some,
    ensures
        ({
            let p = sdk_path_setting(w.lsp_settings)->0;
            resolved_sdk(w) == Ok::<SdkPaths, Seq<char>>(
                SdkPaths {
                    env_root: p,
                    lsp_path: match binary_path_setting(w.lsp_settings) {
                        Some(b) => b,
                        None => p + "/bin/mojo-lsp-server"@,
                    },
                    dap_path: p + "/bin/mojo-lldb-dap"@,
                    mojo_path: p + "/bin/mojo"@,
                    lldb_plugin_path: p + "/lib/libMojoLLDB."@ + library_extension_of(w.os),
                    lldb_visualizers_path: p + "/lib/lldb-visualizers"@,
                },
            )
        }),
{
}

/// A configured binary path is the language server that the extension starts, whatever else
/// is configured or found: the server then needs nothing but that binary.
pub proof fn law_binary_path_overrides_server(w: &Worktree)
    requires
        binary_path_setting(w.lsp_settings) is Some,
    ensures
        resolved_sdk(w) matches Ok(s) ==> s.lsp_path == binary_path_setting(w.lsp_settings)->0,
        server_command(w) matches Ok(c) && c.command == binary_path_setting(w.lsp_settings)->0,
{
}

/// In a Pixi project that uses Mojo, with no SDK path set, the tools come from the project's
/// default Pixi environment.
pub proof fn law_local_pixi_environment(w: &Worktree)
    requires
        sdk_path_setting(w.lsp_settings) is None,
        is_local_pixi_project(w),
    ensures
        ({
            let root = w.root_path@ + "/.pixi/envs/default"@;
            resolved_sdk(w) == Ok::<SdkPaths, Seq<char>>(
                SdkPaths {
                    env_root: root,
                    lsp_path: match binary_path_setting(w.lsp_settings) {
                        Some(b) => b,
                        None => root + "/bin/mojo-lsp-server"@,
                    },
                    dap_path: root + "/bin/mojo-lldb-dap"@,
                    mojo_path: root + "/bin/mojo"@,
                    lldb_plugin_path: root + "/lib/libMojoLLDB."@ + library_extension_of(w.os),
                    lldb_visualizers_path: root + "/lib/lldb-visualizers"@,
                },
            )
        }),
{
}

/// Where no SDK path or binary path is set, no environment is found and no `mojo-lsp-server`
/// is on the `PATH`, the extension reports that it cannot find the server.
pub proof fn law_missing_server(w: &Worktree)
    requires
        sdk_path_setting(w.lsp_settings) is None,
        binary_path_setting(w.lsp_settings) is None,
        discovered_env_root(w) is None,
        which_path(w, "mojo-lsp-server"@) is None,
    ensures
        resolved_sdk(w) == Err::<SdkPaths, Seq<char>>(no_lsp_message()),
        server_command(w) == Err::<crate::lsp::CommandModel, Seq<char>>(no_lsp_message()),
{
}

/// The language server's environment before its `PATH` is set: the shell's environment,
/// telemetry switched off, the configured binary's environment, and the SDK's variables where
/// they are exported.
pub open spec fn server_env_before_path(w: &Worktree, env_root: Seq<char>) -> Seq<(Seq<char>, Seq<char>)> {
    let e = pairs_model(w.shell_env@) + seq![("MODULAR_TELEMETRY_ENABLED"@, "false"@)]
        + binary_env_setting(w.lsp_settings);
    if exports_sdk_env(w, env_root) {
        e + seq![("CONDA_PREFIX"@, env_root), ("MOJO_SDK_PATH"@, env_root)]
    } else {
        e
    }
}

/// Putting a directory first on the `PATH` leaves every other variable as it was, and makes
/// the `PATH` start with that directory.
pub proof fn law_path_prefix(env: Seq<(Seq<char>, Seq<char>)>, dir: Seq<char>, k: Seq<char>)
    ensures
        k != "PATH"@ ==> value_of(with_path_prefix(env, dir), k) == value_of(env, k),
        value_of(with_path_prefix(env, dir), "PATH"@) matches Some(p) && p.len() >= dir.len()
            && p.take(dir.len() as int) == dir,
{
    lemma_key_position(env, "PATH"@);
    match key_position(env, "PATH"@) {
        Some(i) => {
            lemma_key_position(env, k);
            assert(env.update(i, ("PATH"@, dir + ":"@ + env[i].1)) == env.update(
                i,
                (env[i].0, dir + ":"@ + env[i].1),
            ));
            lemma_value_of_update(env, i, dir + ":"@ + env[i].1, k);
            lemma_value_of_update(env, i, dir + ":"@ + env[i].1, "PATH"@);
            assert((dir + ":"@ + env[i].1).take(dir.len() as int) =~= dir);
        },
        None => {
            lemma_value_of_push(env, ("PATH"@, dir), k);
            lemma_value_of_push(env, ("PATH"@, dir), "PATH"@);
            assert(dir.take(dir.len() as int) =~= dir);
        },
    }
}

/// The language server's command keeps every variable but `PATH` as the shell, the settings
/// and the SDK environment give it, and its `PATH` starts with the server's `bin` directory where there is
/// one.
pub proof fn law_server_env(w: &Worktree, k: Seq<char>)
    ensures
        ({
            let root = server_env_root(w);
            server_command(w) matches Ok(c) ==> {
                &&& k != "PATH"@ ==> value_of(c.env, k) == value_of(
                    server_env_before_path(w, root),
                    k,
                )
                &&& server_bin_dir(w, root) matches Some(d) ==> (value_of(c.env, "PATH"@) matches Some(
                    p,
                ) && p.len() >= d.len() && p.take(d.len() as int) == d)
            }
        }),
{
    let root = server_env_root(w);
    let e = server_env_before_path(w, root);
    match server_bin_dir(w, root) {
        Some(d) => {
            law_path_prefix(e, d, k);
        },
        None => {},
    }
}

/// Where a binary path is configured and no SDK path is, the language server's environment
/// carries no SDK variables beyond those of the shell and of the binary's settings: every
/// variable but `PATH` is as the shell and the settings give it, with telemetry off.
pub proof fn law_binary_path_keeps_inherited_env(w: &Worktree, k: Seq<char>)
    requires
        binary_path_setting(w.lsp_settings) is Some,
        sdk_path_setting(w.lsp_settings) is None,
    ensures
        server_command(w) matches Ok(c) && (k != "PATH"@ ==> value_of(c.env, k) == value_of(
            pairs_model(w.shell_env@) + seq![("MODULAR_TELEMETRY_ENABLED"@, "false"@)]
                + binary_env_setting(w.lsp_settings),
            k,
        )),
{
    law_server_env(w, k);
}

/// The debug adapter that the extension starts is the one the user gave, where the user gave
/// one, else the SDK's `mojo-lldb-dap`; its configuration is the rewritten launch
/// configuration text.
pub proof fn law_adapter_binary(
    config: Seq<char>,
    user_path: Option<Seq<char>>,
    w: &Worktree,
    scripts: Seq<Seq<char>>,
)
    ensures
        adapter_binary(config, user_path, w, scripts) matches Ok(b) ==> {
            &&& resolved_sdk(w) is Ok
            &&& b.command == Some(
                match user_path {
                    Some(p) => p,
                    None => resolved_sdk(w)->Ok_0.dap_path,
                },
            )
            &&& rewritten_config_text(config, w, scripts) == Ok::<Seq<char>, Seq<char>>(
                b.configuration,
            )
        },
{
}

/// The environment that a rewritten launch configuration gives the debuggee: the RIT timeout,
/// telemetry off, `CONDA_PREFIX` and `MOJO_SDK_PATH` set to the SDK root where there is one,
/// then the configuration's own `env` items where its `env` is an array, and the shell's
/// environment written as `NAME=value` in every other case (no `env`, or an `env` that is no
/// array).
pub proof fn law_launch_env(
    config: Seq<char>,
    obj: Seq<(Seq<char>, Json)>,
    w: &Worktree,
    scripts: Seq<Seq<char>>,
)
    requires
        resolved_sdk(w) is Ok,
        as_str(lookup(obj, "mojoFile"@)) is Some,
    ensures
        ({
            let root = resolved_sdk(w)->Ok_0.env_root;
            let shell = pairs_model(w.shell_env@);
            let fixed = seq![
                Json::Str("LLDB_VSCODE_RIT_TIMEOUT_IN_MS=300000"@),
                Json::Str("MODULAR_TELEMETRY_ENABLED=false"@),
            ] + if root.len() > 0 {
                seq![Json::Str("CONDA_PREFIX="@ + root), Json::Str("MOJO_SDK_PATH="@ + root)]
            } else {
                Seq::empty()
            };
            rewritten_config(config, Ok(Json::Object(obj)), w, scripts) matches Ok(
                LaunchConfigModel::Rewritten(Json::Object(out)),
            ) && lookup(out, "env"@) matches Some(Json::Array(env)) && env.len() >= fixed.len()
                && env.take(fixed.len() as int) == fixed && match lookup(obj, "env"@) {
                Some(Json::Array(items)) => env.skip(fixed.len() as int) == items,
                _ => env.len() == fixed.len() + shell.len() && forall|i: int|
                    0 <= i < shell.len() ==> #[trigger] env[fixed.len() + i] == Json::Str(
                        shell[i].0 + "="@ + shell[i].1,
                    ),
            }
        }),
{
    reveal_keys();
    law_rewritten_launch_config(config, obj, w, scripts, "env"@);
    let root = resolved_sdk(w)->Ok_0.env_root;
    let shell = pairs_model(w.shell_env@);
    let fixed = seq![
        Json::Str("LLDB_VSCODE_RIT_TIMEOUT_IN_MS=300000"@),
        Json::Str("MODULAR_TELEMETRY_ENABLED=false"@),
    ] + if root.len() > 0 {
        seq![Json::Str("CONDA_PREFIX="@ + root), Json::Str("MOJO_SDK_PATH="@ + root)]
    } else {
        Seq::empty()
    };
    let head = str_values(
        seq!["LLDB_VSCODE_RIT_TIMEOUT_IN_MS=300000"@, "MODULAR_TELEMETRY_ENABLED=false"@]
            + crate::launch::sdk_env_assignments(root),
    );
    assert(head =~= fixed);
    let env = launch_env(obj, root, shell);
    let out = rewritten_config(config, Ok(Json::Object(obj)), w, scripts)->Ok_0->Rewritten_0->Object_0;
    assert(lookup(out, "env"@) == Some(Json::Array(env)));
    let n = fixed.len();
    assert(env.take(n as int) =~= fixed);
    match lookup(obj, "env"@) {
        Some(Json::Array(items)) => {
            assert(env.skip(n as int) =~= items);
        },
        _ => {
            let t = str_values(crate::launch::env_assignments(shell));
            assert(env == fixed + t);
            assert forall|i: int| 0 <= i < shell.len() implies #[trigger] env[n + i]
                == Json::Str(shell[i].0 + "="@ + shell[i].1) by {
                assert(env[n + i] == t[i]);
            }
        },
    }
}

/// The debug adapter is always started in variable REPL mode, whether it is the user's
/// adapter or the SDK's.
pub proof fn law_adapter_arguments(
    config: Seq<char>,
    user_path: Option<Seq<char>>,
    w: &Worktree,
    scripts: Seq<Seq<char>>,
)
    ensures
        adapter_binary(config, user_path, w, scripts) matches Ok(b) ==> b.arguments == seq![
            "--repl-mode"@,
            "variable"@,
        ],
{
}

/// The keys of a scenario's configuration and their values: for a launch, `request` is
/// `launch`, `mojoFile` its program, `args` its arguments, `env` its environment as
/// `NAME=value`, and `cwd` its working directory exactly where it has one; for an attach,
/// `request` is `attach` and `pid` its process id exactly where it has one; no other key.
pub proof fn law_scenario_config_keys(request: DebugRequest, k: Seq<char>)
    ensures
        scenario_config(request) is Object,
        match request {
            DebugRequest::Launch(l) => get(scenario_config(request), k) == if k == "request"@ {
                Some(Json::Str("launch"@))
            } else if k == "mojoFile"@ {
                Some(Json::Str(l.program@))
            } else if k == "args"@ {
                Some(Json::Array(Seq::new(l.args@.len(), |i: int| Json::Str(l.args@[i]@))))
            } else if k == "env"@ {
                Some(
                    Json::Array(
                        Seq::new(
                            l.envs@.len(),
                            |i: int| Json::Str(l.envs@[i].0@ + "="@ + l.envs@[i].1@),
                        ),
                    ),
                )
            } else if k == "cwd"@ {
                match l.cwd {
                    Some(c) => Some(Json::Str(c@)),
                    None => None,
                }
            } else {
                None
            },
            DebugRequest::Attach(a) => get(scenario_config(request), k) == if k == "request"@ {
                Some(Json::Str("attach"@))
            } else if k == "pid"@ {
                match a.process_id {
                    Some(pid) => Some(Json::Unsigned(pid as u64)),
                    None => None,
                }
            } else {
                None
            },
        },
{
    reveal_strlit("request");
    reveal_strlit("mojoFile");
    reveal_strlit("args");
    reveal_strlit("env");
    reveal_strlit("cwd");
    reveal_strlit("pid");
    assert("request"@.len() == 7 && "mojoFile"@.len() == 8 && "args"@.len() == 4);
    assert("env"@.len() == 3 && "cwd"@.len() == 3 && "pid"@.len() == 3);
    assert("args"@[0] != "env"@[0] && "cwd"@[0] != "env"@[0] && "cwd"@[0] != "pid"@[0]);
    match request {
        DebugRequest::Launch(l) => {
            let args = Json::Array(str_values(crate::launch::texts_model(l.args@)));
            let env = Json::Array(
                str_values(crate::launch::env_assignments(pairs_model(l.envs@))),
            );
            assert(args == Json::Array(
                Seq::new(l.args@.len(), |i: int| Json::Str(l.args@[i]@)),
            )) by {
                assert(str_values(crate::launch::texts_model(l.args@)) =~= Seq::new(
                    l.args@.len(),
                    |i: int| Json::Str(l.args@[i]@),
                ));
            }
            assert(env == Json::Array(
                Seq::new(
                    l.envs@.len(),
                    |i: int| Json::Str(l.envs@[i].0@ + "="@ + l.envs@[i].1@),
                ),
            )) by {
                assert(str_values(crate::launch::env_assignments(pairs_model(l.envs@)))
                    =~= Seq::new(
                    l.envs@.len(),
                    |i: int| Json::Str(l.envs@[i].0@ + "="@ + l.envs@[i].1@),
                ));
            }
            let base = seq![
                ("request"@, Json::Str("launch"@)),
                ("mojoFile"@, Json::Str(l.program@)),
                ("args"@, args),
                ("env"@, env),
            ];
            lemma_key_position(base, k);
            crate::keyed::lemma_key_position(base, "cwd"@);
            if k == "request"@ {
                crate::keyed::lemma_key_position_is(base, k, 0);
            } else if k == "mojoFile"@ {
                crate::keyed::lemma_key_position_is(base, k, 1);
            } else if k == "args"@ {
                crate::keyed::lemma_key_position_is(base, k, 2);
            } else if k == "env"@ {
                crate::keyed::lemma_key_position_is(base, k, 3);
            }
            if let Some(c) = l.cwd {
                lemma_lookup_insert(base, "cwd"@, Json::Str(c@), k);
            }
        },
        DebugRequest::Attach(a) => {
            let base = seq![("request"@, Json::Str("attach"@))];
            lemma_key_position(base, k);
            crate::keyed::lemma_key_position(base, "pid"@);
            if k == "request"@ {
                crate::keyed::lemma_key_position_is(base, k, 0);
            }
            if let Some(pid) = a.process_id {
                lemma_lookup_insert(base, "pid"@, Json::Unsigned(pid as u64), k);
            }
        },
    }
}

/// The LLDB plugin and visualizers lie under the SDK root, however the root was found: from
/// the `mojo_sdk_path` setting, a local Pixi project, or where `mojo` is on the `PATH`; the
/// plugin is a `.dylib` on macOS and a `.so` elsewhere. Without a setting the root is the one
/// that was found, and where none was found there is no root and no plugin path.
pub proof fn law_lldb_paths_follow_root(w: &Worktree)
    ensures
        resolved_sdk(w) is Ok ==> {
            let s = resolved_sdk(w)->Ok_0;
            let ext = if w.os == Os::Mac {
                "dylib"@
            } else {
                "so"@
            };
            &&& sdk_path_setting(w.lsp_settings) matches Some(p) ==> s.env_root == p
            &&& sdk_path_setting(w.lsp_settings) is None ==> s.env_root == match discovered_env_root(w) {
                Some(r) => r,
                None => Seq::empty(),
            }
            &&& (sdk_path_setting(w.lsp_settings) is None && !is_local_pixi_project(w) && which_path(
                w,
                "mojo"@,
            ) is Some && root_of_mojo_binary(which_path(w, "mojo"@)->0) is Some) ==> s.env_root
                == root_of_mojo_binary(which_path(w, "mojo"@)->0)->0
            &&& (sdk_path_setting(w.lsp_settings) is Some || discovered_env_root(w) is Some) ==> {
                &&& s.lldb_plugin_path == s.env_root + "/lib/libMojoLLDB."@ + ext
                &&& s.lldb_visualizers_path == s.env_root + "/lib/lldb-visualizers"@
            }
            &&& (sdk_path_setting(w.lsp_settings) is None && discovered_env_root(w) is None) ==> {
                &&& s.env_root.len() == 0
                &&& s.lldb_plugin_path.len() == 0
                &&& s.lldb_visualizers_path.len() == 0
            }
        },
{
    reveal_strlit("dylib");
    reveal_strlit("so");
}

/// Where no binary path is configured and the SDK has a root, the language server is the
/// SDK's and is started in the SDK's environment, however the root was found: telemetry off,
/// `CONDA_PREFIX` and `MOJO_SDK_PATH` set to the root, and the `PATH` starting with the root's
/// `bin` directory.
pub proof fn law_server_sdk_env(w: &Worktree)
    requires
        binary_path_setting(w.lsp_settings) is None,
    ensures
        resolved_sdk(w) is Ok && resolved_sdk(w)->Ok_0.env_root.len() > 0 ==> {
            let s = resolved_sdk(w)->Ok_0;
            let r = s.env_root;
            &&& server_command(w) is Ok
            &&& server_command(w)->Ok_0.command == s.lsp_path
            &&& server_command(w)->Ok_0.env.contains(("MODULAR_TELEMETRY_ENABLED"@, "false"@))
            &&& server_command(w)->Ok_0.env.contains(("CONDA_PREFIX"@, r))
            &&& server_command(w)->Ok_0.env.contains(("MOJO_SDK_PATH"@, r))
            &&& value_of(server_command(w)->Ok_0.env, "PATH"@) is Some
            &&& value_of(server_command(w)->Ok_0.env, "PATH"@)->0.len() >= r.len() + 4
            &&& value_of(server_command(w)->Ok_0.env, "PATH"@)->0.take(r.len() + 4int) == r + "/bin"@
        },
{
    reveal_strlit("PATH");
    reveal_strlit("CONDA_PREFIX");
    reveal_strlit("MOJO_SDK_PATH");
    reveal_strlit("MODULAR_TELEMETRY_ENABLED");
    reveal_strlit("/bin");
    if resolved_sdk(w) is Ok && resolved_sdk(w)->Ok_0.env_root.len() > 0 {
        let r = resolved_sdk(w)->Ok_0.env_root;
        assert(server_env_root(w) == r);
        let shell = pairs_model(w.shell_env@);
        let e0 = shell + seq![("MODULAR_TELEMETRY_ENABLED"@, "false"@)] + binary_env_setting(
            w.lsp_settings,
        );
        let e = e0 + seq![("CONDA_PREFIX"@, r), ("MOJO_SDK_PATH"@, r)];
        assert(exports_sdk_env(w, r));
        assert(server_bin_dir(w, r) == Some(r + "/bin"@));
        let d = r + "/bin"@;
        let env = with_path_prefix(e, d);
        let c = server_command(w)->Ok_0;
        assert(c.env == env);
        let t = shell.len() as int;
        let j = e0.len() as int;
        assert(e[t] == ("MODULAR_TELEMETRY_ENABLED"@, "false"@));
        assert(e[j] == ("CONDA_PREFIX"@, r));
        assert(e[j + 1] == ("MOJO_SDK_PATH"@, r));
        lemma_key_position(e, "PATH"@);
        assert("PATH"@.len() == 4 && "CONDA_PREFIX"@.len() == 12 && "MOJO_SDK_PATH"@.len() == 13);
        assert("PATH"@ != "CONDA_PREFIX"@ && "PATH"@ != "MOJO_SDK_PATH"@);
        assert("PATH"@ != "MODULAR_TELEMETRY_ENABLED"@);
        assert(env[t] == e[t] && env[j] == e[j] && env[j + 1] == e[j + 1]);
        assert(env.len() >= e.len());
        assert(env.contains(e[t]));
        assert(env.contains(e[j]));
        assert(env.contains(e[j + 1]));
        law_path_prefix(e, d, "PATH"@);
        assert(d.len() == r.len() + 4);
        assert(d == r + "/bin"@);
    }
}

/// The debugger's start-up commands in a rewritten launch configuration: load the SDK's Mojo
/// LLDB plugin, switch off leading zeroes in hex values and optimization warnings, then run the
/// configuration's own `initCommands` where it gives them as an array.
pub proof fn law_init_commands(
    config: Seq<char>,
    obj: Seq<(Seq<char>, Json)>,
    w: &Worktree,
    scripts: Seq<Seq<char>>,
)
    requires
        resolved_sdk(w) is Ok,
        as_str(lookup(obj, "mojoFile"@)) is Some,
    ensures
        ({
            let sdk = resolved_sdk(w)->Ok_0;
            rewritten_config(config, Ok(Json::Object(obj)), w, scripts) matches Ok(
                LaunchConfigModel::Rewritten(Json::Object(out)),
            ) && lookup(out, "initCommands"@) matches Some(Json::Array(cmds)) && cmds.len() >= 3
                && cmds[0] == Json::Str("?!plugin load '"@ + sdk.lldb_plugin_path + "'"@)
                && cmds[1] == Json::Str(
                "?settings set target.show-hex-variable-values-with-leading-zeroes false"@,
            ) && cmds[2] == Json::Str("?settings set target.process.optimization-warnings false"@)
                && cmds.skip(3) == match lookup(obj, "initCommands"@) {
                Some(Json::Array(items)) => items,
                _ => Seq::empty(),
            }
        }),
{
    reveal_keys();
    law_rewritten_launch_config(config, obj, w, scripts, "initCommands"@);
    let sdk = resolved_sdk(w)->Ok_0;
    let file = as_str(lookup(obj, "mojoFile"@))->0;
    let shell = pairs_model(w.shell_env@);
    let v_args = Json::Array(
        str_values(
            launch_args(
                string_items(lookup(obj, "buildArgs"@)),
                file,
                string_items(lookup(obj, "args"@)),
            ),
        ),
    );
    let v_env = Json::Array(launch_env(obj, sdk.env_root, shell));
    let k = "initCommands"@;
    let e1 = insert(obj, "program"@, Json::Str(sdk.mojo_path));
    let e2 = insert(e1, "args"@, v_args);
    let e3 = insert(e2, "env"@, v_env);
    let e4 = insert(e3, "debuggerRoot"@, Json::Str(w.root_path@));
    let e5 = insert(e4, "type"@, Json::Str("mojo-lldb"@));
    let e6 = with_debugger_defaults(e5);
    lemma_lookup_insert(obj, "program"@, Json::Str(sdk.mojo_path), k);
    lemma_lookup_insert(e1, "args"@, v_args, k);
    lemma_lookup_insert(e2, "env"@, v_env, k);
    lemma_lookup_insert(e3, "debuggerRoot"@, Json::Str(w.root_path@), k);
    lemma_lookup_insert(e4, "type"@, Json::Str("mojo-lldb"@), k);
    lemma_debugger_defaults(e5, k);
    assert(lookup(e6, k) == lookup(obj, k));
    let cmds = init_commands(e6, sdk, scripts);
    let out = rewritten_config(config, Ok(Json::Object(obj)), w, scripts)->Ok_0->Rewritten_0->Object_0;
    assert(lookup(out, k) == Some(Json::Array(cmds)));
    assert(cmds.skip(3) =~= match lookup(obj, k) {
        Some(Json::Array(items)) => items,
        _ => Seq::<Json>::empty(),
    });
}

/// The debug adapter runs in the SDK's environment, with telemetry off and `CONDA_PREFIX` and
/// `MOJO_SDK_PATH` set to the SDK root, in no particular working directory; it is asked to
/// attach exactly where the task's configuration parses to an object whose `request` is the
/// string `attach`, and to launch otherwise.
pub proof fn law_adapter_env_and_request(
    config: Seq<char>,
    user_path: Option<Seq<char>>,
    w: &Worktree,
    scripts: Seq<Seq<char>>,
)
    ensures
        adapter_binary(config, user_path, w, scripts) matches Ok(b) ==> {
            let root = resolved_sdk(w)->Ok_0.env_root;
            &&& b.envs == seq![
                ("MODULAR_TELEMETRY_ENABLED"@, "false"@),
                ("CONDA_PREFIX"@, root),
                ("MOJO_SDK_PATH"@, root),
            ]
            &&& b.cwd is None
            &&& (b.request == StartDebuggingRequestArgumentsRequest::Attach) == (json_parse(config)
                matches Ok(Json::Object(e)) && lookup(e, "request"@) == Some(Json::Str("attach"@)))
        },
{
}

/// Without an SDK path setting, each tool lies under the root that was found (a local Pixi
/// environment, or the root above where `mojo` is on the `PATH`); where no root was found, each
/// tool is where the `PATH` has it. A configured binary path is the language server in any case.
pub proof fn law_sdk_tools(w: &Worktree)
    requires
        sdk_path_setting(w.lsp_settings) is None,
    ensures
        resolved_sdk(w) is Ok ==> {
            let s = resolved_sdk(w)->Ok_0;
            &&& binary_path_setting(w.lsp_settings) is Some ==> s.lsp_path == binary_path_setting(
                w.lsp_settings,
            )->0
            &&& discovered_env_root(w) is Some ==> {
                let r = discovered_env_root(w)->0;
                &&& binary_path_setting(w.lsp_settings) is None ==> s.lsp_path == r
                    + "/bin/mojo-lsp-server"@
                &&& s.dap_path == r + "/bin/mojo-lldb-dap"@
                &&& s.mojo_path == r + "/bin/mojo"@
            }
            &&& discovered_env_root(w) is None ==> {
                &&& binary_path_setting(w.lsp_settings) is None ==> which_path(
                    w,
                    "mojo-lsp-server"@,
                ) == Some(s.lsp_path)
                &&& which_path(w, "mojo-lldb-dap"@) == Some(s.dap_path)
                &&& which_path(w, "mojo"@) == Some(s.mojo_path)
            }
        },
{
}

/// The command line of a rewritten launch: `run --no-optimization --debug-level full`, then the
/// configuration's string build arguments, the `mojoFile`, and the configuration's string
/// arguments, each in its order.
pub proof fn law_launch_args(
    config: Seq<char>,
    obj: Seq<(Seq<char>, Json)>,
    w: &Worktree,
    scripts: Seq<Seq<char>>,
)
    requires
        resolved_sdk(w) is Ok,
        as_str(lookup(obj, "mojoFile"@)) is Some,
    ensures
        ({
            let file = as_str(lookup(obj, "mojoFile"@))->0;
            let b = string_items(lookup(obj, "buildArgs"@));
            let x = string_items(lookup(obj, "args"@));
            rewritten_config(config, Ok(Json::Object(obj)), w, scripts) matches Ok(
                LaunchConfigModel::Rewritten(Json::Object(out)),
            ) && lookup(out, "args"@) matches Some(Json::Array(a)) && a.len() == 5 + b.len()
                + x.len() && a[0] == Json::Str("run"@) && a[1] == Json::Str("--no-optimization"@)
                && a[2] == Json::Str("--debug-level"@) && a[3] == Json::Str("full"@) && (forall|
                i: int,
            |
                0 <= i < b.len() ==> #[trigger] a[4 + i] == Json::Str(b[i])) && a[4 + b.len() as int]
                == Json::Str(file) && (forall|i: int|
                0 <= i < x.len() ==> #[trigger] a[5 + b.len() + i] == Json::Str(x[i]))
        }),
{
    reveal_keys();
    law_rewritten_launch_config(config, obj, w, scripts, "args"@);
    let file = as_str(lookup(obj, "mojoFile"@))->0;
    let b = string_items(lookup(obj, "buildArgs"@));
    let x = string_items(lookup(obj, "args"@));
    let l = launch_args(b, file, x);
    let a = str_values(l);
    let out = rewritten_config(config, Ok(Json::Object(obj)), w, scripts)->Ok_0->Rewritten_0->Object_0;
    assert(lookup(out, "args"@) == Some(Json::Array(a)));
    assert forall|i: int| 0 <= i < b.len() implies #[trigger] a[4 + i] == Json::Str(b[i]) by {
        assert(l[4 + i] == b[i]);
    }
    assert(l[4 + b.len() as int] == file);
    assert forall|i: int| 0 <= i < x.len() implies #[trigger] a[5 + b.len() + i] == Json::Str(
        x[i],
    ) by {
        assert(l[5 + b.len() + i] == x[i]);
    }
}

} // verus!
