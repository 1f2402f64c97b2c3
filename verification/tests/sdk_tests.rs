use zed_mojo::extension::MojoExtension;
use zed_mojo::json::JsonValue;
use zed_mojo::platform::Os;
use zed_mojo::sdk::{discover_env_root, guess_root_of_mojo_binary};
use zed_mojo::settings::{CommandSettings, LspSettings};
use zed_mojo::worktree::Worktree;

fn pairs(items: &[(&str, &str)]) -> Vec<(String, String)> {
    items.iter().map(|(a, b)| (a.to_string(), b.to_string())).collect()
}

fn worktree(files: &[(&str, &str)], exes: &[(&str, &str)]) -> Worktree {
    Worktree {
        root_path: "/work/proj".to_string(),
        os: Os::Linux,
        lsp_settings: None,
        text_files: pairs(files),
        executables: pairs(exes),
        shell_env: pairs(&[("HOME", "/home/u")]),
    }
}

fn settings(sdk_path: Option<JsonValue>, binary: Option<&str>) -> LspSettings {
    LspSettings {
        binary: binary.map(|b| CommandSettings {
            path: Some(b.to_string()),
            arguments: None,
            env: None,
        }),
        settings: sdk_path.map(|v| JsonValue::Object(vec![("mojo_sdk_path".to_string(), v)])),
    }
}

#[test]
fn library_extension_per_platform() {
    assert_eq!(MojoExtension::library_extension(Os::Mac), "dylib");
    assert_eq!(MojoExtension::library_extension(Os::Linux), "so");
    assert_eq!(MojoExtension::library_extension(Os::Windows), "so");
}

#[test]
fn configured_sdk_path_reads_string_setting() {
    let mut w = worktree(&[], &[]);
    assert_eq!(MojoExtension::configured_sdk_path(&w), None);
    w.lsp_settings = Some(settings(Some(JsonValue::Str("/opt/sdk".to_string())), None));
    assert_eq!(MojoExtension::configured_sdk_path(&w), Some("/opt/sdk".to_string()));
    w.lsp_settings = Some(settings(Some(JsonValue::Bool(true)), None));
    assert_eq!(MojoExtension::configured_sdk_path(&w), None);
    w.lsp_settings = Some(LspSettings { binary: None, settings: Some(JsonValue::Null) });
    assert_eq!(MojoExtension::configured_sdk_path(&w), None);
}

#[test]
fn configured_binary_path_reads_binary_setting() {
    let mut w = worktree(&[], &[]);
    assert_eq!(MojoExtension::configured_binary_path(&w), None);
    w.lsp_settings = Some(settings(None, Some("/custom/mojo-lsp-server")));
    assert_eq!(
        MojoExtension::configured_binary_path(&w),
        Some("/custom/mojo-lsp-server".to_string())
    );
}

#[test]
fn sdk_from_configured_path() {
    let mut w = worktree(&[("pixi.toml", "mojo")], &[("mojo", "/usr/bin/mojo")]);
    w.os = Os::Mac;
    w.lsp_settings = Some(settings(Some(JsonValue::Str("/opt/sdk".to_string())), None));
    let sdk = MojoExtension::new().sdk(&w).unwrap();
    assert_eq!(sdk.env_root, "/opt/sdk");
    assert_eq!(sdk.lsp_path, "/opt/sdk/bin/mojo-lsp-server");
    assert_eq!(sdk.dap_path, "/opt/sdk/bin/mojo-lldb-dap");
    assert_eq!(sdk.mojo_path, "/opt/sdk/bin/mojo");
    assert_eq!(sdk.lldb_plugin_path, "/opt/sdk/lib/libMojoLLDB.dylib");
    assert_eq!(sdk.lldb_visualizers_path, "/opt/sdk/lib/lldb-visualizers");
}

#[test]
fn sdk_path_with_binary_override() {
    let mut w = worktree(&[], &[]);
    w.lsp_settings = Some(settings(
        Some(JsonValue::Str("/opt/sdk".to_string())),
        Some("/custom/lsp"),
    ));
    let sdk = MojoExtension::new().sdk(&w).unwrap();
    assert_eq!(sdk.lsp_path, "/custom/lsp");
    assert_eq!(sdk.dap_path, "/opt/sdk/bin/mojo-lldb-dap");
}

#[test]
fn sdk_from_local_pixi_toml() {
    let w = worktree(
        &[("pixi.toml", "[dependencies]\nmojo = \"*\"\n")],
        &[("mojo", "/usr/local/bin/mojo")],
    );
    let sdk = MojoExtension::new().sdk(&w).unwrap();
    assert_eq!(sdk.env_root, "/work/proj/.pixi/envs/default");
    assert_eq!(sdk.lsp_path, "/work/proj/.pixi/envs/default/bin/mojo-lsp-server");
    assert_eq!(sdk.dap_path, "/work/proj/.pixi/envs/default/bin/mojo-lldb-dap");
    assert_eq!(sdk.mojo_path, "/work/proj/.pixi/envs/default/bin/mojo");
    assert_eq!(sdk.lldb_plugin_path, "/work/proj/.pixi/envs/default/lib/libMojoLLDB.so");
    assert_eq!(
        sdk.lldb_visualizers_path,
        "/work/proj/.pixi/envs/default/lib/lldb-visualizers"
    );
}

#[test]
fn sdk_from_pyproject_needs_tool_pixi() {
    let w = worktree(&[("pyproject.toml", "[tool.pixi.dependencies]\nmojo = \"*\"")], &[]);
    let sdk = MojoExtension::new().sdk(&w).unwrap();
    assert_eq!(sdk.env_root, "/work/proj/.pixi/envs/default");

    let w = worktree(
        &[("pyproject.toml", "[project]\nname = \"mojo-thing\"")],
        &[("mojo", "/opt/m/bin/mojo")],
    );
    let sdk = MojoExtension::new().sdk(&w).unwrap();
    assert_eq!(sdk.env_root, "/opt/m");
}

#[test]
fn pixi_toml_without_mojo_is_not_a_mojo_project() {
    let w = worktree(
        &[("pixi.toml", "[dependencies]\npython = \"*\""), ("pyproject.toml", "mojo tool.pixi")],
        &[("mojo", "/opt/m/bin/mojo")],
    );
    let sdk = MojoExtension::new().sdk(&w).unwrap();
    assert_eq!(sdk.env_root, "/opt/m");
    assert_eq!(sdk.lsp_path, "/opt/m/bin/mojo-lsp-server");
}

#[test]
fn root_guessed_from_mojo_on_path() {
    assert_eq!(
        guess_root_of_mojo_binary(&"/usr/local/mojo/bin/mojo".to_string()),
        Some("/usr/local/mojo".to_string())
    );
    assert_eq!(
        guess_root_of_mojo_binary(&"/home/u/proj/.pixi/bin/mojo".to_string()),
        Some("/home/u/proj/.pixi/envs/default".to_string())
    );
    assert_eq!(
        guess_root_of_mojo_binary(&"/a/bin/b/bin/mojo".to_string()),
        Some("/a/bin/b".to_string())
    );
    assert_eq!(guess_root_of_mojo_binary(&"mojo".to_string()), None);
}

#[test]
fn global_pixi_shim_points_at_default_env() {
    let w = worktree(&[], &[("mojo", "/home/u/.pixi/bin/mojo")]);
    assert_eq!(
        discover_env_root(&w),
        Some("/home/u/.pixi/envs/default".to_string())
    );
}

#[test]
fn tools_from_path_without_env_root() {
    let w = worktree(
        &[],
        &[
            ("mojo", "mojo"),
            ("mojo-lsp-server", "/x/mojo-lsp-server"),
            ("mojo-lldb-dap", "/y/mojo-lldb-dap"),
        ],
    );
    let sdk = MojoExtension::new().sdk(&w).unwrap();
    assert_eq!(sdk.env_root, "");
    assert_eq!(sdk.lsp_path, "/x/mojo-lsp-server");
    assert_eq!(sdk.dap_path, "/y/mojo-lldb-dap");
    assert_eq!(sdk.mojo_path, "mojo");
    assert_eq!(sdk.lldb_plugin_path, "");
    assert_eq!(sdk.lldb_visualizers_path, "");
}

#[test]
fn missing_tools_are_reported() {
    let w = worktree(&[], &[]);
    assert_eq!(
        MojoExtension::new().sdk(&w),
        Err("Could not find mojo-lsp-server in PATH. Install Mojo, or set \"mojo_sdk_path\" in your Zed settings under lsp.mojo-lsp-server.settings.".to_string())
    );
    let w = worktree(&[], &[("mojo-lsp-server", "/x/lsp")]);
    assert_eq!(
        MojoExtension::new().sdk(&w),
        Err("Could not find mojo-lldb-dap in PATH. Set \"mojo_sdk_path\" in your Zed settings under lsp.mojo-lsp-server.settings.".to_string())
    );
    let w = worktree(&[], &[("mojo-lsp-server", "/x/lsp"), ("mojo-lldb-dap", "/x/dap")]);
    assert_eq!(
        MojoExtension::new().sdk(&w),
        Err("Could not find mojo in PATH".to_string())
    );
}

#[test]
fn binary_path_overrides_discovered_server() {
    let mut w = worktree(&[("pixi.toml", "mojo")], &[]);
    w.lsp_settings = Some(settings(None, Some("/custom/lsp")));
    let sdk = MojoExtension::new().sdk(&w).unwrap();
    assert_eq!(sdk.lsp_path, "/custom/lsp");
    assert_eq!(sdk.env_root, "/work/proj/.pixi/envs/default");
}

#[test]
fn python_scripting_is_never_assumed() {
    let w = worktree(&[("pixi.toml", "mojo")], &[]);
    let sdk = MojoExtension::new().sdk(&w).unwrap();
    assert!(!MojoExtension::lldb_has_python_scripting_support(&sdk));
}
