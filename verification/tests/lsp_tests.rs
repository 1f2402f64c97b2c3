use zed_mojo::extension::MojoExtension;
use zed_mojo::json::JsonValue;
use zed_mojo::platform::Os;
use zed_mojo::settings::{CommandSettings, LspSettings};
use zed_mojo::worktree::Worktree;

fn pairs(items: &[(&str, &str)]) -> Vec<(String, String)> {
    items.iter().map(|(a, b)| (a.to_string(), b.to_string())).collect()
}

fn worktree(shell: &[(&str, &str)]) -> Worktree {
    Worktree {
        root_path: "/work/proj".to_string(),
        os: Os::Linux,
        lsp_settings: None,
        text_files: pairs(&[("pixi.toml", "mojo")]),
        executables: vec![],
        shell_env: pairs(shell),
    }
}

const ROOT: &str = "/work/proj/.pixi/envs/default";

#[test]
fn server_command_with_pixi_env() {
    let w = worktree(&[("HOME", "/h"), ("PATH", "/usr/bin"), ("PATH", "/other")]);
    let c = MojoExtension::new().language_server_command(&w).unwrap();
    assert_eq!(c.command, format!("{}/bin/mojo-lsp-server", ROOT));
    assert!(c.args.is_empty());
    assert_eq!(
        c.env,
        pairs(&[
            ("HOME", "/h"),
            ("PATH", "/work/proj/.pixi/envs/default/bin:/usr/bin"),
            ("PATH", "/other"),
            ("MODULAR_TELEMETRY_ENABLED", "false"),
            ("CONDA_PREFIX", ROOT),
            ("MOJO_SDK_PATH", ROOT),
        ])
    );
}

#[test]
fn server_path_added_where_shell_has_none() {
    let w = worktree(&[]);
    let c = MojoExtension::new().language_server_command(&w).unwrap();
    assert_eq!(
        c.env,
        pairs(&[
            ("MODULAR_TELEMETRY_ENABLED", "false"),
            ("CONDA_PREFIX", ROOT),
            ("MOJO_SDK_PATH", ROOT),
            ("PATH", "/work/proj/.pixi/envs/default/bin"),
        ])
    );
}

#[test]
fn server_without_env_root_keeps_shell_env() {
    let mut w = worktree(&[("PATH", "/usr/bin")]);
    w.text_files = vec![];
    w.executables = pairs(&[("mojo-lsp-server", "/x/lsp"), ("mojo-lldb-dap", "/x/dap"), ("mojo", "mojo")]);
    let c = MojoExtension::new().language_server_command(&w).unwrap();
    assert_eq!(c.command, "/x/lsp");
    assert_eq!(c.env, pairs(&[("PATH", "/usr/bin"), ("MODULAR_TELEMETRY_ENABLED", "false")]));
}

#[test]
fn configured_binary_forwards_arguments_and_env() {
    let mut w = worktree(&[("PATH", "/usr/bin"), ("CONDA_PREFIX", "/inherited")]);
    w.lsp_settings = Some(LspSettings {
        binary: Some(CommandSettings {
            path: Some("/bazel/toolchain/bin/mojo-lsp-server".to_string()),
            arguments: Some(vec!["-I".to_string(), "/src".to_string()]),
            env: Some(pairs(&[("EXTRA", "1")])),
        }),
        settings: None,
    });
    let c = MojoExtension::new().language_server_command(&w).unwrap();
    assert_eq!(c.command, "/bazel/toolchain/bin/mojo-lsp-server");
    assert_eq!(c.args, vec!["-I".to_string(), "/src".to_string()]);
    assert_eq!(
        c.env,
        pairs(&[
            ("PATH", "/bazel/toolchain/bin:/usr/bin"),
            ("CONDA_PREFIX", "/inherited"),
            ("MODULAR_TELEMETRY_ENABLED", "false"),
            ("EXTRA", "1"),
        ])
    );
}

#[test]
fn configured_binary_and_sdk_path_export_the_sdk() {
    let mut w = worktree(&[]);
    w.lsp_settings = Some(LspSettings {
        binary: Some(CommandSettings {
            path: Some("/custom/mojo-lsp-server".to_string()),
            arguments: None,
            env: None,
        }),
        settings: Some(JsonValue::Object(vec![(
            "mojo_sdk_path".to_string(),
            JsonValue::Str("/opt/sdk".to_string()),
        )])),
    });
    let c = MojoExtension::new().language_server_command(&w).unwrap();
    assert_eq!(c.command, "/custom/mojo-lsp-server");
    assert_eq!(
        c.env,
        pairs(&[
            ("MODULAR_TELEMETRY_ENABLED", "false"),
            ("CONDA_PREFIX", "/opt/sdk"),
            ("MOJO_SDK_PATH", "/opt/sdk"),
            ("PATH", "/custom"),
        ])
    );
}

#[test]
fn bare_binary_name_leaves_path_alone() {
    let mut w = worktree(&[("PATH", "/usr/bin")]);
    w.lsp_settings = Some(LspSettings {
        binary: Some(CommandSettings { path: Some("mojo-lsp-server".to_string()), arguments: None, env: None }),
        settings: None,
    });
    let c = MojoExtension::new().language_server_command(&w).unwrap();
    assert_eq!(c.env, pairs(&[("PATH", "/usr/bin"), ("MODULAR_TELEMETRY_ENABLED", "false")]));
}

#[test]
fn server_error_when_nothing_found() {
    let mut w = worktree(&[]);
    w.text_files = vec![];
    assert_eq!(
        MojoExtension::new().language_server_command(&w),
        Err("Could not find mojo-lsp-server in PATH. Install Mojo, or set \"mojo_sdk_path\" in your Zed settings under lsp.mojo-lsp-server.settings.".to_string())
    );
}

#[test]
fn configured_binary_needs_nothing_else() {
    let mut w = worktree(&[("PATH", "/usr/bin")]);
    w.text_files = vec![];
    w.lsp_settings = Some(LspSettings {
        binary: Some(CommandSettings {
            path: Some("/bazel/bin/mojo-lsp-server".to_string()),
            arguments: None,
            env: None,
        }),
        settings: None,
    });
    assert!(MojoExtension::new().sdk(&w).is_err());
    let c = MojoExtension::new().language_server_command(&w).unwrap();
    assert_eq!(c.command, "/bazel/bin/mojo-lsp-server");
    assert_eq!(
        c.env,
        pairs(&[("PATH", "/bazel/bin:/usr/bin"), ("MODULAR_TELEMETRY_ENABLED", "false")])
    );
}
