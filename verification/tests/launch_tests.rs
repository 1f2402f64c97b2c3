use zed_extension_api::serde_json::Number;
use zed_mojo::extension::MojoExtension;
use zed_mojo::json::JsonValue;
use zed_mojo::launch::LaunchConfig;
use zed_mojo::platform::Os;
use zed_mojo::worktree::Worktree;

fn pairs(items: &[(&str, &str)]) -> Vec<(String, String)> {
    items.iter().map(|(a, b)| (a.to_string(), b.to_string())).collect()
}

fn s(x: &str) -> JsonValue {
    JsonValue::Str(x.to_string())
}

fn arr(items: &[&str]) -> JsonValue {
    JsonValue::Array(items.iter().map(|x| s(x)).collect())
}

fn obj(entries: Vec<(&str, JsonValue)>) -> JsonValue {
    JsonValue::Object(entries.into_iter().map(|(k, v)| (k.to_string(), v)).collect())
}

fn pixi_worktree() -> Worktree {
    Worktree {
        root_path: "/work/proj".to_string(),
        os: Os::Linux,
        lsp_settings: None,
        text_files: pairs(&[("pixi.toml", "mojo")]),
        executables: vec![],
        shell_env: pairs(&[("HOME", "/home/u"), ("PATH", "/usr/bin")]),
    }
}

fn get<'a>(v: &'a JsonValue, key: &str) -> Option<&'a JsonValue> {
    match v {
        JsonValue::Object(entries) => entries.iter().find(|(k, _)| k == key).map(|(_, v)| v),
        _ => None,
    }
}

fn rewrite(config: JsonValue, w: &Worktree) -> Result<LaunchConfig, String> {
    MojoExtension::new().rewrite_parsed_launch_config("<text>", Ok(config), w, &vec![])
}

const ROOT: &str = "/work/proj/.pixi/envs/default";

#[test]
fn parse_error_is_returned() {
    let w = pixi_worktree();
    let r = MojoExtension::new().rewrite_parsed_launch_config(
        "{",
        Err("EOF while parsing an object at line 1 column 1".to_string()),
        &w,
        &vec![],
    );
    assert_eq!(r, Err("EOF while parsing an object at line 1 column 1".to_string()));
}

#[test]
fn non_object_config_is_kept_verbatim() {
    let w = pixi_worktree();
    let r = MojoExtension::new().rewrite_parsed_launch_config("[1]", Ok(arr(&["x"])), &w, &vec![]);
    assert_eq!(r, Ok(LaunchConfig::Verbatim("[1]".to_string())));
}

#[test]
fn config_without_mojo_file_is_kept_verbatim() {
    let w = pixi_worktree();
    assert_eq!(
        rewrite(obj(vec![("request", s("launch"))]), &w),
        Ok(LaunchConfig::Verbatim("<text>".to_string()))
    );
    assert_eq!(
        rewrite(obj(vec![("mojoFile", JsonValue::Bool(true))]), &w),
        Ok(LaunchConfig::Verbatim("<text>".to_string()))
    );
}

#[test]
fn sdk_error_is_returned_for_objects() {
    let mut w = pixi_worktree();
    w.text_files = vec![];
    assert_eq!(
        rewrite(obj(vec![("mojoFile", s("main.mojo"))]), &w),
        Err("Could not find mojo-lsp-server in PATH. Install Mojo, or set \"mojo_sdk_path\" in your Zed settings under lsp.mojo-lsp-server.settings.".to_string())
    );
    assert_eq!(
        MojoExtension::new().rewrite_parsed_launch_config("3", Ok(JsonValue::Number(Number::from(3u64))), &w, &vec![]),
        Ok(LaunchConfig::Verbatim("3".to_string()))
    );
}

#[test]
fn full_rewrite() {
    let w = pixi_worktree();
    let config = obj(vec![
        ("label", s("Debug")),
        ("mojoFile", s("/work/proj/main.mojo")),
        ("args", JsonValue::Array(vec![s("--x"), JsonValue::Bool(true), s("7")])),
        ("buildArgs", arr(&["-I", "src"])),
        ("request", s("launch")),
    ]);
    let out = match rewrite(config, &w) {
        Ok(LaunchConfig::Rewritten(v)) => v,
        other => panic!("unexpected {:?}", other),
    };
    let expected = obj(vec![
        ("label", s("Debug")),
        (
            "args",
            arr(&[
                "run",
                "--no-optimization",
                "--debug-level",
                "full",
                "-I",
                "src",
                "/work/proj/main.mojo",
                "--x",
                "7",
            ]),
        ),
        ("request", s("launch")),
        ("program", s("/work/proj/.pixi/envs/default/bin/mojo")),
        (
            "env",
            arr(&[
                "LLDB_VSCODE_RIT_TIMEOUT_IN_MS=300000",
                "MODULAR_TELEMETRY_ENABLED=false",
                "CONDA_PREFIX=/work/proj/.pixi/envs/default",
                "MOJO_SDK_PATH=/work/proj/.pixi/envs/default",
                "HOME=/home/u",
                "PATH=/usr/bin",
            ]),
        ),
        ("debuggerRoot", s("/work/proj")),
        ("type", s("mojo-lldb")),
        ("runInTerminal", JsonValue::Bool(false)),
        ("stopOnEntry", JsonValue::Bool(false)),
        ("customFrameFormat", s("${function.name-with-args}{${frame.is-artificial} [artificial]}")),
        ("enableSyntheticChildDebugging", JsonValue::Bool(true)),
        ("enableAutoVariableSummaries", JsonValue::Bool(true)),
        ("commandEscapePrefix", s(":")),
        ("timeout", JsonValue::Unsigned(300)),
        (
            "initCommands",
            arr(&[
                "?!plugin load '/work/proj/.pixi/envs/default/lib/libMojoLLDB.so'",
                "?settings set target.show-hex-variable-values-with-leading-zeroes false",
                "?settings set target.process.optimization-warnings false",
            ]),
        ),
    ]);
    assert_eq!(out, expected);
    assert_eq!(ROOT, "/work/proj/.pixi/envs/default");
}

#[test]
fn user_settings_win_over_defaults() {
    let w = pixi_worktree();
    let config = obj(vec![
        ("mojoFile", s("a.mojo")),
        ("stopOnEntry", JsonValue::Bool(true)),
        ("timeout", JsonValue::Number(Number::from(5u64))),
        ("commandEscapePrefix", s("`")),
        ("env", arr(&["A=1"])),
        ("initCommands", arr(&["command one"])),
        ("program", s("ignored")),
        ("type", s("other")),
    ]);
    let out = match rewrite(config, &w) {
        Ok(LaunchConfig::Rewritten(v)) => v,
        other => panic!("unexpected {:?}", other),
    };
    assert_eq!(get(&out, "stopOnEntry"), Some(&JsonValue::Bool(true)));
    assert_eq!(get(&out, "timeout"), Some(&JsonValue::Number(Number::from(5u64))));
    assert_eq!(get(&out, "commandEscapePrefix"), Some(&s("`")));
    assert_eq!(get(&out, "runInTerminal"), Some(&JsonValue::Bool(false)));
    assert_eq!(get(&out, "program"), Some(&s("/work/proj/.pixi/envs/default/bin/mojo")));
    assert_eq!(get(&out, "type"), Some(&s("mojo-lldb")));
    assert_eq!(
        get(&out, "env"),
        Some(&arr(&[
            "LLDB_VSCODE_RIT_TIMEOUT_IN_MS=300000",
            "MODULAR_TELEMETRY_ENABLED=false",
            "CONDA_PREFIX=/work/proj/.pixi/envs/default",
            "MOJO_SDK_PATH=/work/proj/.pixi/envs/default",
            "A=1",
        ]))
    );
    assert_eq!(
        get(&out, "initCommands"),
        Some(&arr(&[
            "?!plugin load '/work/proj/.pixi/envs/default/lib/libMojoLLDB.so'",
            "?settings set target.show-hex-variable-values-with-leading-zeroes false",
            "?settings set target.process.optimization-warnings false",
            "command one",
        ]))
    );
    assert_eq!(get(&out, "mojoFile"), None);
    assert_eq!(get(&out, "buildArgs"), None);
    assert_eq!(get(&out, "args"), Some(&arr(&["run", "--no-optimization", "--debug-level", "full", "a.mojo"])));
}

#[test]
fn no_sdk_variables_without_env_root() {
    let w = Worktree {
        root_path: "/w".to_string(),
        os: Os::Linux,
        lsp_settings: None,
        text_files: vec![],
        executables: pairs(&[
            ("mojo", "mojo"),
            ("mojo-lsp-server", "/x/lsp"),
            ("mojo-lldb-dap", "/x/dap"),
        ]),
        shell_env: vec![],
    };
    let out = match rewrite(obj(vec![("mojoFile", s("m.mojo"))]), &w) {
        Ok(LaunchConfig::Rewritten(v)) => v,
        other => panic!("unexpected {:?}", other),
    };
    assert_eq!(
        get(&out, "env"),
        Some(&arr(&["LLDB_VSCODE_RIT_TIMEOUT_IN_MS=300000", "MODULAR_TELEMETRY_ENABLED=false"]))
    );
    assert_eq!(get(&out, "program"), Some(&s("mojo")));
    assert_eq!(
        get(&out, "initCommands"),
        Some(&arr(&[
            "?!plugin load ''",
            "?settings set target.show-hex-variable-values-with-leading-zeroes false",
            "?settings set target.process.optimization-warnings false",
        ]))
    );
}

#[test]
fn rewriting_twice_keeps_the_second_text() {
    let w = pixi_worktree();
    let first = match rewrite(obj(vec![("mojoFile", s("m.mojo"))]), &w) {
        Ok(LaunchConfig::Rewritten(v)) => v,
        other => panic!("unexpected {:?}", other),
    };
    let again = MojoExtension::new().rewrite_parsed_launch_config("second", Ok(first), &w, &vec![]);
    assert_eq!(again, Ok(LaunchConfig::Verbatim("second".to_string())));
}

#[test]
fn visualizer_scripts_are_not_imported() {
    let w = pixi_worktree();
    let scripts = vec!["/v/a.py".to_string()];
    let out = match MojoExtension::new().rewrite_parsed_launch_config(
        "t",
        Ok(obj(vec![("mojoFile", s("m.mojo"))])),
        &w,
        &scripts,
    ) {
        Ok(LaunchConfig::Rewritten(v)) => v,
        other => panic!("unexpected {:?}", other),
    };
    match get(&out, "initCommands") {
        Some(JsonValue::Array(items)) => assert_eq!(items.len(), 3),
        other => panic!("unexpected {:?}", other),
    }
}

#[test]
fn readme_debug_configuration() {
    let w = pixi_worktree();
    let config = obj(vec![
        ("label", s("Mojo: Debug basic example")),
        ("adapter", s("mojo-lldb")),
        ("request", s("launch")),
        ("cwd", s("/work/proj")),
        ("mojoFile", s("/work/proj/examples/debug_basic.mojo")),
        ("args", JsonValue::Array(vec![])),
    ]);
    let out = match rewrite(config, &w) {
        Ok(LaunchConfig::Rewritten(v)) => v,
        other => panic!("unexpected {:?}", other),
    };
    assert_eq!(get(&out, "cwd"), Some(&s("/work/proj")));
    assert_eq!(get(&out, "adapter"), Some(&s("mojo-lldb")));
    assert_eq!(get(&out, "label"), Some(&s("Mojo: Debug basic example")));
    assert_eq!(
        get(&out, "args"),
        Some(&arr(&[
            "run",
            "--no-optimization",
            "--debug-level",
            "full",
            "/work/proj/examples/debug_basic.mojo",
        ]))
    );
    assert_eq!(get(&out, "mojoFile"), None);
}

fn parse_text(text: &str) -> zed_extension_api::serde_json::Value {
    zed_extension_api::serde_json::from_str(text).unwrap()
}

#[test]
fn rewrite_text_round_trip() {
    let w = pixi_worktree();
    let text = "{\"mojoFile\": \"m.mojo\", \"stopOnEntry\": true, \"args\": [\"x\"]}";
    let out = MojoExtension::new().rewrite_mojo_launch_config(text, &w, &vec![]).unwrap();
    let expected = parse_text(
        "{\"args\":[\"run\",\"--no-optimization\",\"--debug-level\",\"full\",\"m.mojo\",\"x\"],\
         \"commandEscapePrefix\":\":\",\
         \"customFrameFormat\":\"${function.name-with-args}{${frame.is-artificial} [artificial]}\",\
         \"debuggerRoot\":\"/work/proj\",\
         \"enableAutoVariableSummaries\":true,\"enableSyntheticChildDebugging\":true,\
         \"env\":[\"LLDB_VSCODE_RIT_TIMEOUT_IN_MS=300000\",\"MODULAR_TELEMETRY_ENABLED=false\",\
         \"CONDA_PREFIX=/work/proj/.pixi/envs/default\",\"MOJO_SDK_PATH=/work/proj/.pixi/envs/default\",\
         \"HOME=/home/u\",\"PATH=/usr/bin\"],\
         \"initCommands\":[\"?!plugin load '/work/proj/.pixi/envs/default/lib/libMojoLLDB.so'\",\
         \"?settings set target.show-hex-variable-values-with-leading-zeroes false\",\
         \"?settings set target.process.optimization-warnings false\"],\
         \"program\":\"/work/proj/.pixi/envs/default/bin/mojo\",\"runInTerminal\":false,\
         \"stopOnEntry\":true,\"timeout\":300,\"type\":\"mojo-lldb\"}",
    );
    assert_eq!(parse_text(&out), expected);
    assert!(out.starts_with("{\"args\":"));
    assert!(out.ends_with("\"type\":\"mojo-lldb\"}"));
}

#[test]
fn rewrite_text_keeps_other_texts() {
    let w = pixi_worktree();
    let text = "[1, 2]";
    assert_eq!(
        MojoExtension::new().rewrite_mojo_launch_config(text, &w, &vec![]),
        Ok(text.to_string())
    );
    let text = "{ \"request\": \"launch\" }";
    assert_eq!(
        MojoExtension::new().rewrite_mojo_launch_config(text, &w, &vec![]),
        Ok(text.to_string())
    );
}

#[test]
fn rewrite_text_parse_error() {
    let w = pixi_worktree();
    let r = MojoExtension::new().rewrite_mojo_launch_config("{", &w, &vec![]);
    let expected = zed_extension_api::serde_json::from_str::<zed_extension_api::serde_json::Value>("{")
        .unwrap_err()
        .to_string();
    assert_eq!(r, Err(expected));
}

#[test]
fn json_text_conversions() {
    let v = JsonValue::from_text("{\"b\": [1, 2.5, null, true], \"a\": \"x\"}").unwrap();
    assert_eq!(
        v,
        obj(vec![
            ("a", s("x")),
            (
                "b",
                JsonValue::Array(vec![
                    JsonValue::Number(Number::from(1u64)),
                    JsonValue::Number(Number::from_f64(2.5).unwrap()),
                    JsonValue::Null,
                    JsonValue::Bool(true),
                ]),
            ),
        ])
    );
    assert_eq!(v.to_text(), "{\"a\":\"x\",\"b\":[1,2.5,null,true]}");
    assert!(JsonValue::from_text("nope").is_err());
}
