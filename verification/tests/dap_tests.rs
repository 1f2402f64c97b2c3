use zed_mojo::dap::{
    scenario_config_value, AttachRequest, DebugConfig, DebugRequest, DebugTaskDefinition, LaunchRequest,
    StartDebuggingRequestArgumentsRequest,
};
use zed_mojo::extension::MojoExtension;
use zed_mojo::json::JsonValue;
use zed_mojo::platform::Os;
use zed_mojo::worktree::Worktree;

fn pairs(items: &[(&str, &str)]) -> Vec<(String, String)> {
    items.iter().map(|(a, b)| (a.to_string(), b.to_string())).collect()
}

fn s(x: &str) -> JsonValue {
    JsonValue::Str(x.to_string())
}

fn obj(entries: Vec<(&str, JsonValue)>) -> JsonValue {
    JsonValue::Object(entries.into_iter().map(|(k, v)| (k.to_string(), v)).collect())
}

fn pixi_worktree() -> Worktree {
    Worktree {
        root_path: "/work/proj".to_string(),
        os: Os::Mac,
        lsp_settings: None,
        text_files: pairs(&[("pixi.toml", "mojo")]),
        executables: vec![],
        shell_env: vec![],
    }
}

fn task(config: &str) -> DebugTaskDefinition {
    DebugTaskDefinition {
        label: "t".to_string(),
        adapter: "mojo-lldb".to_string(),
        config: config.to_string(),
    }
}

#[test]
fn request_kind_from_config() {
    let mut ext = MojoExtension::new();
    assert_eq!(
        ext.dap_request_kind("mojo-lldb".to_string(), obj(vec![("request", s("attach"))])),
        Ok(StartDebuggingRequestArgumentsRequest::Attach)
    );
    assert_eq!(
        ext.dap_request_kind("mojo-lldb".to_string(), obj(vec![("request", s("launch"))])),
        Ok(StartDebuggingRequestArgumentsRequest::Launch)
    );
    assert_eq!(
        ext.dap_request_kind("mojo-lldb".to_string(), obj(vec![("request", JsonValue::Bool(true))])),
        Ok(StartDebuggingRequestArgumentsRequest::Launch)
    );
    assert_eq!(
        ext.dap_request_kind("mojo-lldb".to_string(), obj(vec![])),
        Ok(StartDebuggingRequestArgumentsRequest::Launch)
    );
    assert_eq!(
        ext.dap_request_kind("mojo-lldb".to_string(), s("attach")),
        Ok(StartDebuggingRequestArgumentsRequest::Launch)
    );
}

#[test]
fn adapter_from_sdk() {
    let w = pixi_worktree();
    let text = "{\"request\":\"attach\"}";
    let b = MojoExtension::new()
        .get_dap_binary(
            "mojo-lldb".to_string(),
            task(text),
            None,
            &w,
            &vec![],
        )
        .unwrap();
    assert_eq!(b.command, Some("/work/proj/.pixi/envs/default/bin/mojo-lldb-dap".to_string()));
    assert_eq!(b.arguments, vec!["--repl-mode".to_string(), "variable".to_string()]);
    assert_eq!(
        b.envs,
        pairs(&[
            ("MODULAR_TELEMETRY_ENABLED", "false"),
            ("CONDA_PREFIX", "/work/proj/.pixi/envs/default"),
            ("MOJO_SDK_PATH", "/work/proj/.pixi/envs/default"),
        ])
    );
    assert_eq!(b.cwd, None);
    assert_eq!(b.request_args.request, StartDebuggingRequestArgumentsRequest::Attach);
    assert_eq!(b.request_args.configuration, text.to_string());
}

#[test]
fn adapter_from_user_path_with_rewritten_config() {
    let w = pixi_worktree();
    let b = MojoExtension::new()
        .get_dap_binary(
            "mojo-lldb".to_string(),
            task("{\"mojoFile\": \"m.mojo\"}"),
            Some("/my/dap".to_string()),
            &w,
            &vec![],
        )
        .unwrap();
    assert_eq!(b.command, Some("/my/dap".to_string()));
    assert_eq!(b.request_args.request, StartDebuggingRequestArgumentsRequest::Launch);
    match JsonValue::from_text(&b.request_args.configuration) {
        Ok(JsonValue::Object(entries)) => {
            assert!(entries.iter().any(|(k, v)| k == "type" && *v == s("mojo-lldb")));
            assert!(!entries.iter().any(|(k, _)| k == "mojoFile"));
        },
        other => panic!("unexpected {:?}", other),
    }
}

#[test]
fn adapter_errors() {
    let w = pixi_worktree();
    let r = MojoExtension::new().get_dap_binary(
        "mojo-lldb".to_string(),
        task("{"),
        None,
        &w,
        &vec![],
    );
    assert!(r.is_err());
    let mut w = pixi_worktree();
    w.text_files = vec![];
    let r = MojoExtension::new().get_dap_binary(
        "mojo-lldb".to_string(),
        task("[]"),
        None,
        &w,
        &vec![],
    );
    assert_eq!(
        r,
        Err("Could not find mojo-lsp-server in PATH. Install Mojo, or set \"mojo_sdk_path\" in your Zed settings under lsp.mojo-lsp-server.settings.".to_string())
    );
}

#[test]
fn launch_scenario() {
    let config = DebugConfig {
        label: "Run".to_string(),
        adapter: "mojo-lldb".to_string(),
        request: DebugRequest::Launch(LaunchRequest {
            program: "/p/main.mojo".to_string(),
            cwd: Some("/p".to_string()),
            args: vec!["a".to_string(), "b".to_string()],
            envs: pairs(&[("K", "V")]),
        }),
        stop_on_entry: Some(true),
    };
    let scenario = MojoExtension::new().dap_config_to_scenario(config).unwrap();
    assert_eq!(scenario.label, "Run");
    assert_eq!(scenario.adapter, "mojo-lldb");
    assert_eq!(
        scenario.config,
        "{\"args\":[\"a\",\"b\"],\"cwd\":\"/p\",\"env\":[\"K=V\"],\"mojoFile\":\"/p/main.mojo\",\"request\":\"launch\"}"
    );
    let value = JsonValue::from_text(&scenario.config).unwrap();
    let kind = MojoExtension::new().dap_request_kind("mojo-lldb".to_string(), value);
    assert_eq!(kind, Ok(StartDebuggingRequestArgumentsRequest::Launch));
}

#[test]
fn attach_scenario() {
    let config = DebugConfig {
        label: "Attach".to_string(),
        adapter: "mojo-lldb".to_string(),
        request: DebugRequest::Attach(AttachRequest { process_id: Some(4242) }),
        stop_on_entry: None,
    };
    let scenario = MojoExtension::new().dap_config_to_scenario(config).unwrap();
    assert_eq!(scenario.config, "{\"pid\":4242,\"request\":\"attach\"}");
    let value = JsonValue::from_text(&scenario.config).unwrap();
    let kind = MojoExtension::new().dap_request_kind("mojo-lldb".to_string(), value);
    assert_eq!(kind, Ok(StartDebuggingRequestArgumentsRequest::Attach));

    let config = DebugConfig {
        label: "Attach".to_string(),
        adapter: "mojo-lldb".to_string(),
        request: DebugRequest::Attach(AttachRequest { process_id: None }),
        stop_on_entry: None,
    };
    let scenario = MojoExtension::new().dap_config_to_scenario(config).unwrap();
    assert_eq!(scenario.config, "{\"request\":\"attach\"}");
}

#[test]
fn scenario_values() {
    let value = scenario_config_value(DebugRequest::Launch(LaunchRequest {
        program: "/p/main.mojo".to_string(),
        cwd: Some("/p".to_string()),
        args: vec!["a".to_string()],
        envs: pairs(&[("K", "V")]),
    }));
    assert_eq!(
        value,
        obj(vec![
            ("request", s("launch")),
            ("mojoFile", s("/p/main.mojo")),
            ("args", JsonValue::Array(vec![s("a")])),
            ("env", JsonValue::Array(vec![s("K=V")])),
            ("cwd", s("/p")),
        ])
    );
    let value = scenario_config_value(DebugRequest::Attach(AttachRequest { process_id: Some(7) }));
    assert_eq!(
        value,
        obj(vec![("request", s("attach")), ("pid", JsonValue::Unsigned(7))])
    );
}
