//! Where the Mojo SDK and its tools are: from the settings, a Pixi project, or the `PATH`.

use vstd::prelude::*;

use crate::extension::MojoExtension;
use crate::platform::{library_extension_of, Os};
use crate::settings::{binary_path_setting, sdk_path_setting};
use crate::text::{
    contains_str, ends_with_str, find_str, has_substring, has_suffix, join2, join3,
    last_occurrence, lemma_first_occurrence, lemma_last_occurrence, prefix_before,
    rfind_str, take_chars,
};
use crate::worktree::{file_text, which_path, Worktree};

verus! {

broadcast use vstd::string::group_string_axioms;

/// The paths of a Mojo SDK and of its tools.
#[derive(Clone, Debug, PartialEq, Eq)]
pub struct MojoSdk {
    /// The root of the SDK's environment; empty where none is known.
    pub env_root: String,
    pub lsp_path: String,
    pub dap_path: String,
    pub mojo_path: String,
    /// The LLDB plugin; empty where no environment root is known.
    pub lldb_plugin_path: String,
    /// The LLDB visualizers; empty where no environment root is known.
    pub lldb_visualizers_path: String,
}

/// The model of a `MojoSdk`.
pub struct SdkPaths {
    pub env_root: Seq<char>,
    pub lsp_path: Seq<char>,
    pub dap_path: Seq<char>,
    pub mojo_path: Seq<char>,
    pub lldb_plugin_path: Seq<char>,
    pub lldb_visualizers_path: Seq<char>,
}

impl View for MojoSdk {
    type V = SdkPaths;

    open spec fn view(&self) -> SdkPaths {
        SdkPaths {
            env_root: self.env_root@,
            lsp_path: self.lsp_path@,
            dap_path: self.dap_path@,
            mojo_path: self.mojo_path@,
            lldb_plugin_path: self.lldb_plugin_path@,
            lldb_visualizers_path: self.lldb_visualizers_path@,
        }
    }
}

/// The message given where no language server can be found.
pub open spec fn no_lsp_message() -> Seq<char> {
    "Could not find mojo-lsp-server in PATH. Install Mojo, or set \"mojo_sdk_path\" in your Zed settings under lsp.mojo-lsp-server.settings."@
}

/// The message given where no debug adapter can be found.
pub open spec fn no_dap_message() -> Seq<char> {
    "Could not find mojo-lldb-dap in PATH. Set \"mojo_sdk_path\" in your Zed settings under lsp.mojo-lsp-server.settings."@
}

/// The message given where no `mojo` can be found.
pub open spec fn no_mojo_message() -> Seq<char> {
    "Could not find mojo in PATH"@
}

/// The paths of an SDK given by its root `sdk`.
pub open spec fn sdk_at(sdk: Seq<char>, binary: Option<Seq<char>>, os: Os) -> SdkPaths {
    SdkPaths {
        env_root: sdk,
        lsp_path: match binary {
            Some(b) => b,
            None => sdk + "/bin/mojo-lsp-server"@,
        },
        dap_path: sdk + "/bin/mojo-lldb-dap"@,
        mojo_path: sdk + "/bin/mojo"@,
        lldb_plugin_path: sdk + "/lib/libMojoLLDB."@ + library_extension_of(os),
        lldb_visualizers_path: sdk + "/lib/lldb-visualizers"@,
    }
}

/// The worktree is a Pixi project that uses Mojo: its `pixi.toml` mentions `mojo`, or, where
/// there is no `pixi.toml`, its `pyproject.toml` mentions both `mojo` and `tool.pixi`.
pub open spec fn is_local_pixi_project(w: &Worktree) -> bool {
    match file_text(w, "pixi.toml"@) {
        Some(c) => has_substring(c, "mojo"@),
        None => match file_text(w, "pyproject.toml"@) {
            Some(c) => has_substring(c, "mojo"@) && has_substring(c, "tool.pixi"@),
            None => false,
        },
    }
}

/// The environment root guessed from where `mojo` is: the part before the last `/bin/`, or,
/// where that part ends with `/.pixi`, the default Pixi environment of the project above it.
pub open spec fn root_of_mojo_binary(mojo_path: Seq<char>) -> Option<Seq<char>> {
    match last_occurrence(mojo_path, "/bin/"@) {
        Some(pos) => {
            let guessed = mojo_path.take(pos);
            if has_suffix(guessed, "/.pixi"@) {
                Some(prefix_before(guessed, "/.pixi"@) + "/.pixi/envs/default"@)
            } else {
                Some(guessed)
            }
        },
        None => None,
    }
}

/// The environment root found without a configured SDK path.
pub open spec fn discovered_env_root(w: &Worktree) -> Option<Seq<char>> {
    if is_local_pixi_project(w) {
        Some(w.root_path@ + "/.pixi/envs/default"@)
    } else {
        match which_path(w, "mojo"@) {
            Some(p) => root_of_mojo_binary(p),
            None => None,
        }
    }
}

/// A tool's path: under the environment root where there is one, else on the `PATH`.
pub open spec fn tool_path(w: &Worktree, root: Option<Seq<char>>, rel: Seq<char>, name: Seq<char>) -> Option<
    Seq<char>,
> {
    match root {
        Some(r) => Some(r + rel),
        None => which_path(w, name),
    }
}

/// The SDK that the extension uses for worktree `w`, or the message of why there is none.
pub open spec fn resolved_sdk(w: &Worktree) -> Result<SdkPaths, Seq<char>> {
    match sdk_path_setting(w.lsp_settings) {
        Some(sdk) => Ok(sdk_at(sdk, binary_path_setting(w.lsp_settings), w.os)),
        None => {
            let root = discovered_env_root(w);
            let lsp = match binary_path_setting(w.lsp_settings) {
                Some(b) => Some(b),
                None => tool_path(w, root, "/bin/mojo-lsp-server"@, "mojo-lsp-server"@),
            };
            match lsp {
                None => Err(no_lsp_message()),
                Some(lsp) => match tool_path(w, root, "/bin/mojo-lldb-dap"@, "mojo-lldb-dap"@) {
                    None => Err(no_dap_message()),
                    Some(dap) => match tool_path(w, root, "/bin/mojo"@, "mojo"@) {
                        None => Err(no_mojo_message()),
                        Some(mojo) => Ok(
                            SdkPaths {
                                env_root: match root {
                                    Some(r) => r,
                                    None => Seq::empty(),
                                },
                                lsp_path: lsp,
                                dap_path: dap,
                                mojo_path: mojo,
                                lldb_plugin_path: match root {
                                    Some(r) => r + "/lib/libMojoLLDB."@ + library_extension_of(
                                        w.os,
                                    ),
                                    None => Seq::empty(),
                                },
                                lldb_visualizers_path: match root {
                                    Some(r) => r + "/lib/lldb-visualizers"@,
                                    None => Seq::empty(),
                                },
                            },
                        ),
                    },
                },
            }
        },
    }
}

/// The model of the outcome of looking for the SDK.
pub open spec fn sdk_outcome(r: Result<MojoSdk, String>) -> Result<SdkPaths, Seq<char>> {
    match r {
        Ok(s) => Ok(s@),
        Err(e) => Err(e@),
    }
}

/// The model of an optional text.
pub open spec fn opt_text(r: Option<String>) -> Option<Seq<char>> {
    match r {
        Some(s) => Some(s@),
        None => None,
    }
}

/// Whether the worktree is a Pixi project that uses Mojo.
pub fn detect_local_pixi_project(w: &Worktree) -> (r: bool)
    ensures
        r == is_local_pixi_project(w),
{
    match w.read_text_file("pixi.toml") {
        Some(content) => contains_str(&content, "mojo"),
        None => match w.read_text_file("pyproject.toml") {
            Some(content) => contains_str(&content, "mojo") && contains_str(&content, "tool.pixi"),
            None => false,
        },
    }
}

/// The environment root guessed from where `mojo` is.
pub fn guess_root_of_mojo_binary(mojo_path: &String) -> (r: Option<String>)
    ensures
        opt_text(r) == root_of_mojo_binary(mojo_path@),
{
    proof {
        lemma_last_occurrence(mojo_path@, "/bin/"@);
    }
    match rfind_str(mojo_path.as_str(), "/bin/") {
        Some(pos) => {
            let guessed = take_chars(mojo_path.as_str(), pos);
            if ends_with_str(guessed.as_str(), "/.pixi") {
                proof {
                    lemma_first_occurrence(guessed@, "/.pixi"@);
                }
                let prefix = match find_str(guessed.as_str(), "/.pixi") {
                    Some(k) => take_chars(guessed.as_str(), k),
                    None => guessed.clone(),
                };
                Some(join2(prefix.as_str(), "/.pixi/envs/default"))
            } else {
                Some(guessed)
            }
        },
        None => None,
    }
}

/// The environment root found without a configured SDK path.
pub fn discover_env_root(w: &Worktree) -> (r: Option<String>)
    ensures
        opt_text(r) == discovered_env_root(w),
{
    if detect_local_pixi_project(w) {
        Some(join2(w.root_path.as_str(), "/.pixi/envs/default"))
    } else {
        match w.which("mojo") {
            Some(p) => guess_root_of_mojo_binary(&p),
            None => None,
        }
    }
}

/// A tool's path: under the environment root where there is one, else on the `PATH`.
pub fn find_tool(w: &Worktree, root: &Option<String>, rel: &str, name: &str) -> (r: Option<String>)
    ensures
        opt_text(r) == tool_path(w, opt_text(*root), rel@, name@),
{
    match root {
        Some(r) => Some(join2(r.as_str(), rel)),
        None => w.which(name),
    }
}

impl MojoExtension {
    /// Finds the Mojo SDK for a worktree: from the configured `mojo_sdk_path` where there is
    /// one, else from the worktree's Pixi environment or from where `mojo` is on the `PATH`.
    pub fn sdk(&self, worktree: &Worktree) -> (r: Result<MojoSdk, String>)
        ensures
            sdk_outcome(r) == resolved_sdk(worktree),
    {
        let sdk_path_setting = Self::configured_sdk_path(worktree);
        if let Some(sdk_path) = sdk_path_setting {
            let lib_ext = Self::library_extension(worktree.os);
            let lsp_path = match Self::configured_binary_path(worktree) {
                Some(b) => b,
                None => join2(sdk_path.as_str(), "/bin/mojo-lsp-server"),
            };
            let dap_path = join2(sdk_path.as_str(), "/bin/mojo-lldb-dap");
            let mojo_path = join2(sdk_path.as_str(), "/bin/mojo");
            let lldb_plugin_path = join3(sdk_path.as_str(), "/lib/libMojoLLDB.", lib_ext);
            let lldb_visualizers_path = join2(sdk_path.as_str(), "/lib/lldb-visualizers");
            return Ok(
                MojoSdk {
                    env_root: sdk_path,
                    lsp_path,
                    dap_path,
                    mojo_path,
                    lldb_plugin_path,
                    lldb_visualizers_path,
                },
            );
        }
        let env_root = discover_env_root(worktree);
        let lsp_path = match Self::configured_binary_path(worktree) {
            Some(b) => b,
            None => match find_tool(
                worktree,
                &env_root,
                "/bin/mojo-lsp-server",
                "mojo-lsp-server",
            ) {
                Some(p) => p,
                None => {
                    return Err(
                        String::from_str(
                            "Could not find mojo-lsp-server in PATH. Install Mojo, or set \"mojo_sdk_path\" in your Zed settings under lsp.mojo-lsp-server.settings.",
                        ),
                    );
                },
            },
        };
        let dap_path = match find_tool(worktree, &env_root, "/bin/mojo-lldb-dap", "mojo-lldb-dap") {
            Some(p) => p,
            None => {
                return Err(
                    String::from_str(
                        "Could not find mojo-lldb-dap in PATH. Set \"mojo_sdk_path\" in your Zed settings under lsp.mojo-lsp-server.settings.",
                    ),
                );
            },
        };
        let mojo_path = match find_tool(worktree, &env_root, "/bin/mojo", "mojo") {
            Some(p) => p,
            None => {
                return Err(String::from_str("Could not find mojo in PATH"));
            },
        };
        let lldb_plugin_path = match &env_root {
            Some(root) => join3(
                root.as_str(),
                "/lib/libMojoLLDB.",
                Self::library_extension(worktree.os),
            ),
            None => String::new(),
        };
        let lldb_visualizers_path = match &env_root {
            Some(root) => join2(root.as_str(), "/lib/lldb-visualizers"),
            None => String::new(),
        };
        let env_root = match env_root {
            Some(root) => root,
            None => String::new(),
        };
        Ok(
            MojoSdk {
                env_root,
                lsp_path,
                dap_path,
                mojo_path,
                lldb_plugin_path,
                lldb_visualizers_path,
            },
        )
    }

    /// The file extension of a shared library on `os`: `dylib` on macOS, `so` elsewhere.
    pub fn library_extension(os: Os) -> (r: &'static str)
        ensures
            r@ == library_extension_of(os),
    {
        match os {
            Os::Mac => "dylib",
            _ => "so",
        }
    }

    /// The user-configured `mojo_sdk_path`, if any.
    pub fn configured_sdk_path(worktree: &Worktree) -> (r: Option<String>)
        ensures
            opt_text(r) == sdk_path_setting(worktree.lsp_settings),
    {
        match &worktree.lsp_settings {
            Some(ls) => match &ls.settings {
                Some(v) => match v.get("mojo_sdk_path") {
                    Some(s) => match s.as_str() {
                        Some(p) => Some(p.clone()),
                        None => None,
                    },
                    None => None,
                },
                None => None,
            },
            None => None,
        }
    }

    /// The user-configured path of the language server binary, if any.
    pub fn configured_binary_path(worktree: &Worktree) -> (r: Option<String>)
        ensures
            opt_text(r) == binary_path_setting(worktree.lsp_settings),
    {
        match &worktree.lsp_settings {
            Some(ls) => match &ls.binary {
                Some(b) => match &b.path {
                    Some(p) => Some(p.clone()),
                    None => None,
                },
                None => None,
            },
            None => None,
        }
    }
}

} // verus!
