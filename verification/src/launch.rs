//! Rewriting a Mojo launch configuration into one for the `mojo-lldb` debug adapter.

use vstd::prelude::*;

use crate::extension::MojoExtension;
use crate::json::{
    as_str, entries_model, get_entry, has_key, insert, insert_entry, lemma_array_model,
    canonical, lemma_object_model, json_parse, json_print, lookup, parse_outcome, position_of, text_outcome, remove, remove_entry, Json, JsonValue,
};
use crate::keyed::pairs_model;
use crate::sdk::{resolved_sdk, MojoSdk, SdkPaths};
use crate::text::{join2, join3};
use crate::worktree::Worktree;

verus! {

broadcast use vstd::string::group_string_axioms;

/// The models of a sequence of JSON values.
pub open spec fn items_model(v: Seq<JsonValue>) -> Seq<Json> {
    v.map_values(|x: JsonValue| x@)
}

/// The models of a sequence of texts.
pub open spec fn texts_model(v: Seq<String>) -> Seq<Seq<char>> {
    v.map_values(|x: String| x@)
}

/// JSON strings holding the given texts.
pub open spec fn str_values(s: Seq<Seq<char>>) -> Seq<Json> {
    s.map_values(|x: Seq<char>| Json::Str(x))
}

/// The model of an optional JSON value.
pub open spec fn opt_json(v: Option<&JsonValue>) -> Option<Json> {
    match v {
        Some(j) => Some(j@),
        None => None,
    }
}

/// The strings among `items`, in order; other items are left out.
pub open spec fn strings_in(items: Seq<Json>) -> Seq<Seq<char>>
    decreases items.len(),
{
    if items.len() == 0 {
        Seq::empty()
    } else {
        let rest = strings_in(items.drop_last());
        match items.last() {
            Json::Str(s) => rest.push(s),
            _ => rest,
        }
    }
}

/// The strings of a value that is an array; nothing for any other value.
pub open spec fn string_items(v: Option<Json>) -> Seq<Seq<char>> {
    match v {
        Some(Json::Array(items)) => strings_in(items),
        _ => Seq::empty(),
    }
}

/// The command line of the launch: `run`, the build arguments, the file, then its arguments.
pub open spec fn launch_args(
    build_args: Seq<Seq<char>>,
    mojo_file: Seq<char>,
    args: Seq<Seq<char>>,
) -> Seq<Seq<char>> {
    seq!["run"@, "--no-optimization"@, "--debug-level"@, "full"@] + build_args + seq![mojo_file]
        + args
}

/// Environment entries written as `NAME=value`.
pub open spec fn env_assignments(env: Seq<(Seq<char>, Seq<char>)>) -> Seq<Seq<char>> {
    Seq::new(env.len(), |i: int| env[i].0 + "="@ + env[i].1)
}

/// The variables that point the debuggee at the SDK environment, where there is one.
pub open spec fn sdk_env_assignments(env_root: Seq<char>) -> Seq<Seq<char>> {
    if env_root.len() > 0 {
        seq!["CONDA_PREFIX="@ + env_root, "MOJO_SDK_PATH="@ + env_root]
    } else {
        Seq::empty()
    }
}

/// The environment of the launch: fixed settings, the SDK's variables, then the configuration's
/// own `env` array, or the shell's environment where the configuration has none.
pub open spec fn launch_env(
    obj: Seq<(Seq<char>, Json)>,
    env_root: Seq<char>,
    shell_env: Seq<(Seq<char>, Seq<char>)>,
) -> Seq<Json> {
    str_values(
        seq!["LLDB_VSCODE_RIT_TIMEOUT_IN_MS=300000"@, "MODULAR_TELEMETRY_ENABLED=false"@]
            + sdk_env_assignments(env_root),
    ) + match lookup(obj, "env"@) {
        Some(Json::Array(items)) => items,
        _ => str_values(env_assignments(shell_env)),
    }
}

/// `e` with `key` set to `v` unless `e` already has `key`.
pub open spec fn with_default(e: Seq<(Seq<char>, Json)>, key: Seq<char>, v: Json) -> Seq<
    (Seq<char>, Json),
> {
    if has_key(e, key) {
        e
    } else {
        insert(e, key, v)
    }
}

/// What `with_default` does to the value and presence of each key.
pub proof fn lemma_with_default(e: Seq<(Seq<char>, Json)>, key: Seq<char>, v: Json, other: Seq<char>)
    ensures
        lookup(with_default(e, key, v), other) == if other == key && !has_key(e, key) {
            Some(v)
        } else {
            lookup(e, other)
        },
        has_key(with_default(e, key, v), other) == (has_key(e, other) || other == key),
{
    crate::json::lemma_lookup_insert(e, key, v, other);
    if other == key {
        crate::keyed::lemma_key_position(e, key);
    }
}

/// The frame format that the debugger shows.
pub open spec fn frame_format() -> Seq<char> {
    "${function.name-with-args}{${frame.is-artificial} [artificial]}"@
}

/// `e` with the debugger's defaults for every setting that it leaves out.
pub open spec fn with_debugger_defaults(e: Seq<(Seq<char>, Json)>) -> Seq<(Seq<char>, Json)> {
    let e = with_default(e, "runInTerminal"@, Json::Bool(false));
    let e = with_default(e, "stopOnEntry"@, Json::Bool(false));
    let e = with_default(e, "customFrameFormat"@, Json::Str(frame_format()));
    let e = with_default(e, "enableSyntheticChildDebugging"@, Json::Bool(true));
    let e = with_default(e, "enableAutoVariableSummaries"@, Json::Bool(true));
    let e = with_default(e, "commandEscapePrefix"@, Json::Str(":"@));
    with_default(e, "timeout"@, Json::Unsigned(300))
}

/// The debugger's LLDB supports Python scripting; taken as never so.
pub open spec fn python_scripting_supported(sdk: SdkPaths) -> bool {
    false
}

/// Commands that import the given visualizer scripts.
pub open spec fn script_imports(scripts: Seq<Seq<char>>) -> Seq<Seq<char>> {
    Seq::new(scripts.len(), |i: int| "?command script import "@ + scripts[i])
}

/// The debugger's start-up commands: load the Mojo plugin, two settings, the visualizer
/// scripts where Python scripting is supported, then the configuration's own `initCommands`.
pub open spec fn init_commands(
    e: Seq<(Seq<char>, Json)>,
    sdk: SdkPaths,
    scripts: Seq<Seq<char>>,
) -> Seq<Json> {
    str_values(
        seq![
            "?!plugin load '"@ + sdk.lldb_plugin_path + "'"@,
            "?settings set target.show-hex-variable-values-with-leading-zeroes false"@,
            "?settings set target.process.optimization-warnings false"@,
        ] + if python_scripting_supported(sdk) {
            script_imports(scripts)
        } else {
            Seq::empty()
        },
    ) + match lookup(e, "initCommands"@) {
        Some(Json::Array(items)) => items,
        _ => Seq::empty(),
    }
}

/// The entries of a rewritten launch configuration `obj` that runs `mojo_file`.
pub open spec fn rewritten_entries(
    obj: Seq<(Seq<char>, Json)>,
    mojo_file: Seq<char>,
    sdk: SdkPaths,
    root_path: Seq<char>,
    shell_env: Seq<(Seq<char>, Seq<char>)>,
    scripts: Seq<Seq<char>>,
) -> Seq<(Seq<char>, Json)> {
    let args = string_items(lookup(obj, "args"@));
    let build_args = string_items(lookup(obj, "buildArgs"@));
    let e = insert(obj, "program"@, Json::Str(sdk.mojo_path));
    let e = insert(
        e,
        "args"@,
        Json::Array(str_values(launch_args(build_args, mojo_file, args))),
    );
    let e = insert(e, "env"@, Json::Array(launch_env(obj, sdk.env_root, shell_env)));
    let e = insert(e, "debuggerRoot"@, Json::Str(root_path));
    let e = insert(e, "type"@, Json::Str("mojo-lldb"@));
    let e = with_debugger_defaults(e);
    let e = insert(e, "initCommands"@, Json::Array(init_commands(e, sdk, scripts)));
    remove(remove(e, "buildArgs"@), "mojoFile"@)
}

/// A launch configuration after rewriting.
#[derive(Debug, PartialEq, Eq)]
pub enum LaunchConfig {
    /// The configuration text as it was given.
    Verbatim(String),
    /// The rewritten configuration.
    Rewritten(JsonValue),
}

/// The model of a rewritten launch configuration.
pub enum LaunchConfigModel {
    Verbatim(Seq<char>),
    Rewritten(Json),
}

impl View for LaunchConfig {
    type V = LaunchConfigModel;

    open spec fn view(&self) -> LaunchConfigModel {
        match self {
            LaunchConfig::Verbatim(s) => LaunchConfigModel::Verbatim(s@),
            LaunchConfig::Rewritten(j) => LaunchConfigModel::Rewritten(j@),
        }
    }
}

/// What rewriting gives for the configuration text `config` parsed as `parsed`: the parse
/// error; the text as it is where it is no object; the SDK's error; the text as it is where it
/// names no `mojoFile`; else the rewritten object.
pub open spec fn rewritten_config(
    config: Seq<char>,
    parsed: Result<Json, Seq<char>>,
    w: &Worktree,
    scripts: Seq<Seq<char>>,
) -> Result<LaunchConfigModel, Seq<char>> {
    match parsed {
        Err(e) => Err(e),
        Ok(Json::Object(obj)) => match resolved_sdk(w) {
            Err(e) => Err(e),
            Ok(sdk) => match as_str(lookup(obj, "mojoFile"@)) {
                Some(f) => Ok(
                    LaunchConfigModel::Rewritten(
                        Json::Object(
                            rewritten_entries(
                                obj,
                                f,
                                sdk,
                                w.root_path@,
                                pairs_model(w.shell_env@),
                                scripts,
                            ),
                        ),
                    ),
                ),
                None => Ok(LaunchConfigModel::Verbatim(config)),
            },
        },
        Ok(_) => Ok(LaunchConfigModel::Verbatim(config)),
    }
}

/// The model of the outcome of a rewrite.
pub open spec fn launch_outcome(r: Result<LaunchConfig, String>) -> Result<LaunchConfigModel, Seq<char>> {
    match r {
        Ok(c) => Ok(c@),
        Err(e) => Err(e@),
    }
}

/// What rewriting the launch configuration text `config` gives: the parse error; the text as
/// it is where it is no object or names no `mojoFile`; the SDK's error; else the rewritten
/// object written as JSON text.
pub open spec fn rewritten_config_text(config: Seq<char>, w: &Worktree, scripts: Seq<Seq<char>>) -> Result<
    Seq<char>,
    Seq<char>,
> {
    match rewritten_config(config, json_parse(config), w, scripts) {
        Err(e) => Err(e),
        Ok(LaunchConfigModel::Verbatim(t)) => Ok(t),
        Ok(LaunchConfigModel::Rewritten(j)) => Ok(json_print(canonical(j))),
    }
}

/// A JSON string holding `s`.
pub(crate) fn str_value(s: &str) -> (r: JsonValue)
    ensures
        r@ == Json::Str(s@),
{
    JsonValue::Str(String::from_str(s))
}

/// The strings of a value that is an array.
fn strings_of(v: Option<&JsonValue>) -> (r: Vec<String>)
    ensures
        texts_model(r@) == string_items(opt_json(v)),
{
    let mut out: Vec<String> = Vec::new();
    match v {
        Some(JsonValue::Array(items)) => {
            proof {
                lemma_array_model(*items);
            }
            let ghost m = items_model(items@);
            let mut i: usize = 0;
            assert(texts_model(out@) =~= strings_in(m.take(0)));
            while i < items.len()
                invariant
                    i <= items.len(),
                    m == items_model(items@),
                    texts_model(out@) == strings_in(m.take(i as int)),
                decreases items.len() - i,
            {
                assert(m.take(i + 1).drop_last() =~= m.take(i as int));
                let ghost before = texts_model(out@);
                match &items[i] {
                    JsonValue::Str(s) => {
                        out.push(s.clone());
                        assert(texts_model(out@) =~= before.push(s@));
                    },
                    _ => {},
                }
                i = i + 1;
            }
            assert(m.take(items.len() as int) =~= m);
        },
        _ => {},
    }
    out
}

/// JSON strings holding the given texts.
pub(crate) fn string_values(v: &Vec<String>) -> (r: Vec<JsonValue>)
    ensures
        items_model(r@) == str_values(texts_model(v@)),
{
    let mut out: Vec<JsonValue> = Vec::new();
    let mut i: usize = 0;
    while i < v.len()
        invariant
            i <= v.len(),
            out.len() == i,
            forall|j: int| 0 <= j < i ==> out@[j]@ == Json::Str(v@[j]@),
        decreases v.len() - i,
    {
        out.push(JsonValue::Str(v[i].clone()));
        i = i + 1;
    }
    assert(items_model(out@) =~= str_values(texts_model(v@)));
    out
}

/// Copies of the given values.
fn copy_items(v: &Vec<JsonValue>) -> (r: Vec<JsonValue>)
    ensures
        items_model(r@) == items_model(v@),
{
    let mut out: Vec<JsonValue> = Vec::new();
    let mut i: usize = 0;
    while i < v.len()
        invariant
            i <= v.len(),
            out.len() == i,
            forall|j: int| 0 <= j < i ==> out@[j]@ == v@[j]@,
        decreases v.len() - i,
    {
        out.push(v[i].deep_clone());
        i = i + 1;
    }
    assert(items_model(out@) =~= items_model(v@));
    out
}

/// Environment entries written as `NAME=value`.
pub(crate) fn env_assignments_of(env: &Vec<(String, String)>) -> (r: Vec<String>)
    ensures
        texts_model(r@) == env_assignments(pairs_model(env@)),
{
    let mut out: Vec<String> = Vec::new();
    let mut i: usize = 0;
    while i < env.len()
        invariant
            i <= env.len(),
            out.len() == i,
            forall|j: int| 0 <= j < i ==> out@[j]@ == env@[j].0@ + "="@ + env@[j].1@,
        decreases env.len() - i,
    {
        out.push(join3(env[i].0.as_str(), "=", env[i].1.as_str()));
        i = i + 1;
    }
    assert(texts_model(out@) =~= env_assignments(pairs_model(env@)));
    out
}

/// Sets `key` to `v` unless the object already has `key`.
fn set_default(entries: &mut Vec<(String, JsonValue)>, key: &str, v: JsonValue)
    ensures
        entries_model(final(entries)@) == with_default(entries_model(old(entries)@), key@, v@),
{
    if position_of(entries, key).is_none() {
        insert_entry(entries, key, v);
    }
}

impl MojoExtension {
    /// Whether the debugger's LLDB supports Python scripting: taken as never, since the
    /// standard `lldb-dap` may lack it.
    pub fn lldb_has_python_scripting_support(_sdk: &MojoSdk) -> (r: bool)
        ensures
            r == python_scripting_supported(_sdk@),
            !r,
    {
        false
    }

    /// Rewrites a parsed Mojo launch configuration for the `mojo-lldb` adapter.
    ///
    /// `parsed` is `config` parsed as JSON, or the parse error. `visualizer_scripts` are the
    /// script files of the SDK's LLDB visualizers directory.
    pub fn rewrite_parsed_launch_config(
        &mut self,
        config: &str,
        parsed: Result<JsonValue, String>,
        worktree: &Worktree,
        visualizer_scripts: &Vec<String>,
    ) -> (r: Result<LaunchConfig, String>)
        ensures
            launch_outcome(r) == rewritten_config(
                config@,
                parse_outcome(parsed),
                worktree,
                texts_model(visualizer_scripts@),
            ),
            *final(self) == *old(self),
    {
        let json = match parsed {
            Ok(j) => j,
            Err(e) => {
                return Err(e);
            },
        };
        let mut entries = match json {
            JsonValue::Object(entries) => entries,
            _ => {
                return Ok(LaunchConfig::Verbatim(String::from_str(config)));
            },
        };
        proof {
            lemma_object_model(entries);
        }
        let ghost obj = entries_model(entries@);
        let sdk = match self.sdk(worktree) {
            Ok(s) => s,
            Err(e) => {
                return Err(e);
            },
        };
        let ghost sdk_model = sdk@;
        let mojo_file = match get_entry(&entries, "mojoFile") {
            Some(v) => match v.as_str() {
                Some(s) => s.clone(),
                None => {
                    return Ok(LaunchConfig::Verbatim(String::from_str(config)));
                },
            },
            None => {
                return Ok(LaunchConfig::Verbatim(String::from_str(config)));
            },
        };
        let args = strings_of(get_entry(&entries, "args"));
        let build_args = strings_of(get_entry(&entries, "buildArgs"));
        let mut env = match get_entry(&entries, "env") {
            Some(JsonValue::Array(items)) => {
                proof {
                    lemma_array_model(*items);
                }
                copy_items(items)
            },
            _ => {
                let shell = worktree.shell_env();
                let assignments = env_assignments_of(&shell);
                string_values(&assignments)
            },
        };
        let mut full_env: Vec<JsonValue> = Vec::new();
        full_env.push(str_value("LLDB_VSCODE_RIT_TIMEOUT_IN_MS=300000"));
        full_env.push(str_value("MODULAR_TELEMETRY_ENABLED=false"));
        if !sdk.env_root.as_str().is_empty() {
            full_env.push(JsonValue::Str(join2("CONDA_PREFIX=", sdk.env_root.as_str())));
            full_env.push(JsonValue::Str(join2("MOJO_SDK_PATH=", sdk.env_root.as_str())));
        }
        full_env.append(&mut env);
        proof {
            assert(items_model(full_env@) =~= launch_env(
                obj,
                sdk_model.env_root,
                pairs_model(worktree.shell_env@),
            ));
        }
        insert_entry(&mut entries, "program", JsonValue::Str(sdk.mojo_path.clone()));
        let mut run_args: Vec<String> = Vec::new();
        run_args.push(String::from_str("run"));
        run_args.push(String::from_str("--no-optimization"));
        run_args.push(String::from_str("--debug-level"));
        run_args.push(String::from_str("full"));
        let mut build_args = build_args;
        run_args.append(&mut build_args);
        run_args.push(mojo_file);
        let mut args = args;
        run_args.append(&mut args);
        let ghost expected_args = launch_args(
            string_items(lookup(obj, "buildArgs"@)),
            mojo_file@,
            string_items(lookup(obj, "args"@)),
        );
        assert(texts_model(run_args@) =~= expected_args);
        let arg_values = string_values(&run_args);
        proof {
            lemma_array_model(arg_values);
        }
        insert_entry(&mut entries, "args", JsonValue::Array(arg_values));
        proof {
            lemma_array_model(full_env);
        }
        insert_entry(&mut entries, "env", JsonValue::Array(full_env));
        insert_entry(&mut entries, "debuggerRoot", JsonValue::Str(worktree.root_path()));
        insert_entry(&mut entries, "type", str_value("mojo-lldb"));
        set_default(&mut entries, "runInTerminal", JsonValue::Bool(false));
        set_default(&mut entries, "stopOnEntry", JsonValue::Bool(false));
        set_default(
            &mut entries,
            "customFrameFormat",
            str_value("${function.name-with-args}{${frame.is-artificial} [artificial]}"),
        );
        set_default(&mut entries, "enableSyntheticChildDebugging", JsonValue::Bool(true));
        set_default(&mut entries, "enableAutoVariableSummaries", JsonValue::Bool(true));
        set_default(&mut entries, "commandEscapePrefix", str_value(":"));
        set_default(&mut entries, "timeout", JsonValue::Unsigned(300));
        let ghost with_defaults = entries_model(entries@);
        let mut startup: Vec<JsonValue> = Vec::new();
        startup.push(
            JsonValue::Str(join3("?!plugin load '", sdk.lldb_plugin_path.as_str(), "'")),
        );
        startup.push(
            str_value("?settings set target.show-hex-variable-values-with-leading-zeroes false"),
        );
        startup.push(str_value("?settings set target.process.optimization-warnings false"));
        if Self::lldb_has_python_scripting_support(&sdk) {
            let mut i: usize = 0;
            while i < visualizer_scripts.len()
                invariant
                    i <= visualizer_scripts.len(),
                decreases visualizer_scripts.len() - i,
            {
                startup.push(
                    JsonValue::Str(
                        join2("?command script import ", visualizer_scripts[i].as_str()),
                    ),
                );
                i = i + 1;
            }
        }
        match get_entry(&entries, "initCommands") {
            Some(JsonValue::Array(existing)) => {
                proof {
                    lemma_array_model(*existing);
                }
                let mut copied = copy_items(existing);
                startup.append(&mut copied);
            },
            _ => {},
        }
        proof {
            assert(items_model(startup@) =~= init_commands(
                with_defaults,
                sdk_model,
                texts_model(visualizer_scripts@),
            ));
            lemma_array_model(startup);
        }
        insert_entry(&mut entries, "initCommands", JsonValue::Array(startup));
        remove_entry(&mut entries, "buildArgs");
        remove_entry(&mut entries, "mojoFile");
        proof {
            lemma_object_model(entries);
            assert(mojo_file@ == as_str(lookup(obj, "mojoFile"@))->0);
            assert(resolved_sdk(worktree) == Ok::<SdkPaths, Seq<char>>(sdk_model));
            assert(entries_model(entries@) == rewritten_entries(
                obj,
                mojo_file@,
                sdk_model,
                worktree.root_path@,
                pairs_model(worktree.shell_env@),
                texts_model(visualizer_scripts@),
            ));
        }
        Ok(LaunchConfig::Rewritten(JsonValue::Object(entries)))
    }

    /// Rewrites the text of a Mojo launch configuration for the `mojo-lldb` adapter: parses
    /// it as JSON, rewrites it, and writes the result as JSON text.
    ///
    /// `visualizer_scripts` are the script files of the SDK's LLDB visualizers directory.
    pub fn rewrite_mojo_launch_config(
        &mut self,
        config: &str,
        worktree: &Worktree,
        visualizer_scripts: &Vec<String>,
    ) -> (r: Result<String, String>)
        ensures
            text_outcome(r) == rewritten_config_text(
                config@,
                worktree,
                texts_model(visualizer_scripts@),
            ),
            *final(self) == *old(self),
    {
        let parsed = JsonValue::from_text(config);
        match self.rewrite_parsed_launch_config(config, parsed, worktree, visualizer_scripts) {
            Err(e) => Err(e),
            Ok(LaunchConfig::Verbatim(text)) => Ok(text),
            Ok(LaunchConfig::Rewritten(value)) => Ok(value.to_text()),
        }
    }
}

} // verus!
