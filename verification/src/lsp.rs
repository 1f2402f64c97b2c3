//! The command that starts the Mojo language server.

use vstd::prelude::*;

use crate::extension::MojoExtension;
use crate::keyed::{key_position, lemma_key_position, pair_position, pairs_model};
use crate::launch::texts_model;
use crate::sdk::{resolved_sdk, SdkPaths};
use crate::settings::{
    binary_arguments_setting, binary_env_setting, binary_path_setting, sdk_path_setting,
};
use crate::text::{join2, join3, last_occurrence, lemma_last_occurrence, rfind_str, take_chars};
use crate::worktree::Worktree;

verus! {

broadcast use vstd::string::group_string_axioms;

/// A command to run: the program, its arguments and its environment.
#[derive(Clone, Debug, PartialEq, Eq)]
pub struct Command {
    pub command: String,
    pub args: Vec<String>,
    pub env: Vec<(String, String)>,
}

/// The model of a `Command`.
pub struct CommandModel {
    pub command: Seq<char>,
    pub args: Seq<Seq<char>>,
    pub env: Seq<(Seq<char>, Seq<char>)>,
}

impl View for Command {
    type V = CommandModel;

    open spec fn view(&self) -> CommandModel {
        CommandModel { command: self.command@, args: texts_model(self.args@), env: pairs_model(self.env@) }
    }
}

/// The directory part of a path: what comes before its last `/`, where it has one.
pub open spec fn parent_dir(p: Seq<char>) -> Option<Seq<char>> {
    match last_occurrence(p, "/"@) {
        Some(i) => Some(p.take(i)),
        None => None,
    }
}

/// The directory put first on the server's `PATH`: that of the configured binary where one
/// is configured, else the `bin` directory of the SDK environment where there is one.
pub open spec fn server_bin_dir(w: &Worktree, env_root: Seq<char>) -> Option<Seq<char>> {
    match binary_path_setting(w.lsp_settings) {
        Some(b) => parent_dir(b),
        None => if env_root.len() > 0 {
            Some(env_root + "/bin"@)
        } else {
            None
        },
    }
}

/// The SDK environment is exported to the server: there is one, and it was configured or no
/// binary path overrides it.
pub open spec fn exports_sdk_env(w: &Worktree, env_root: Seq<char>) -> bool {
    env_root.len() > 0 && (binary_path_setting(w.lsp_settings) is None || sdk_path_setting(
        w.lsp_settings,
    ) is Some)
}

/// `env` with `dir` put first on its `PATH`: the first `PATH` entry becomes `dir:` followed by
/// its value, or, where there is no `PATH`, one is added that holds `dir`.
pub open spec fn with_path_prefix(env: Seq<(Seq<char>, Seq<char>)>, dir: Seq<char>) -> Seq<
    (Seq<char>, Seq<char>),
> {
    match key_position(env, "PATH"@) {
        Some(i) => env.update(i, ("PATH"@, dir + ":"@ + env[i].1)),
        None => env.push(("PATH"@, dir)),
    }
}

/// The environment of the language server.
pub open spec fn server_env(w: &Worktree, env_root: Seq<char>) -> Seq<(Seq<char>, Seq<char>)> {
    let e = pairs_model(w.shell_env@) + seq![("MODULAR_TELEMETRY_ENABLED"@, "false"@)]
        + binary_env_setting(w.lsp_settings);
    let e = if exports_sdk_env(w, env_root) {
        e + seq![("CONDA_PREFIX"@, env_root), ("MOJO_SDK_PATH"@, env_root)]
    } else {
        e
    };
    match server_bin_dir(w, env_root) {
        Some(d) => with_path_prefix(e, d),
        None => e,
    }
}

/// The SDK environment that the language server is started in: the configured SDK path
/// where a binary path is configured (the server then needs nothing else), else the root of
/// the SDK that was found; empty where there is none.
pub open spec fn server_env_root(w: &Worktree) -> Seq<char> {
    match binary_path_setting(w.lsp_settings) {
        Some(_) => match sdk_path_setting(w.lsp_settings) {
            Some(p) => p,
            None => Seq::empty(),
        },
        None => match resolved_sdk(w) {
            Ok(sdk) => sdk.env_root,
            Err(_) => Seq::empty(),
        },
    }
}

/// The command that starts the language server for worktree `w`, or why there is none: the
/// configured binary where there is one, which needs nothing else; else the server of the SDK
/// that was found, or the reason none was.
pub open spec fn server_command(w: &Worktree) -> Result<CommandModel, Seq<char>> {
    match binary_path_setting(w.lsp_settings) {
        Some(b) => Ok(
            CommandModel {
                command: b,
                args: binary_arguments_setting(w.lsp_settings),
                env: server_env(w, server_env_root(w)),
            },
        ),
        None => match resolved_sdk(w) {
            Err(e) => Err(e),
            Ok(sdk) => Ok(
                CommandModel {
                    command: sdk.lsp_path,
                    args: binary_arguments_setting(w.lsp_settings),
                    env: server_env(w, server_env_root(w)),
                },
            ),
        },
    }
}

/// The model of the outcome of building a command.
pub open spec fn command_outcome(r: Result<Command, String>) -> Result<CommandModel, Seq<char>> {
    match r {
        Ok(c) => Ok(c@),
        Err(e) => Err(e@),
    }
}

/// The directory part of a path.
fn parent_dir_of(p: &String) -> (r: Option<String>)
    ensures
        crate::sdk::opt_text(r) == parent_dir(p@),
{
    proof {
        lemma_last_occurrence(p@, "/"@);
    }
    match rfind_str(p.as_str(), "/") {
        Some(i) => Some(take_chars(p.as_str(), i)),
        None => None,
    }
}

/// A copy of a list of texts.
fn copy_texts(v: &Vec<String>) -> (r: Vec<String>)
    ensures
        texts_model(r@) == texts_model(v@),
{
    let mut out: Vec<String> = Vec::new();
    let mut i: usize = 0;
    while i < v.len()
        invariant
            i <= v.len(),
            out.len() == i,
            forall|j: int| 0 <= j < i ==> out@[j]@ == v@[j]@,
        decreases v.len() - i,
    {
        out.push(v[i].clone());
        i = i + 1;
    }
    assert(texts_model(out@) =~= texts_model(v@));
    out
}

/// Puts `dir` first on the `PATH` of `env`.
fn prefix_path(env: &mut Vec<(String, String)>, dir: &String)
    ensures
        pairs_model(final(env)@) == with_path_prefix(pairs_model(old(env)@), dir@),
{
    proof {
        lemma_key_position(pairs_model(env@), "PATH"@);
    }
    let ghost before = pairs_model(env@);
    match pair_position(env, "PATH") {
        Some(i) => {
            let value = join3(dir.as_str(), ":", env[i].1.as_str());
            env.set(i, (String::from_str("PATH"), value));
            assert(pairs_model(env@) =~= with_path_prefix(before, dir@));
        },
        None => {
            env.push((String::from_str("PATH"), dir.clone()));
            assert(pairs_model(env@) =~= with_path_prefix(before, dir@));
        },
    }
}

impl MojoExtension {
    /// The command that starts the Mojo language server for a worktree.
    pub fn language_server_command(&mut self, worktree: &Worktree) -> (r: Result<Command, String>)
        ensures
            command_outcome(r) == server_command(worktree),
            *final(self) == *old(self),
    {
        let binary_path = Self::configured_binary_path(worktree);
        let sdk_path = Self::configured_sdk_path(worktree);
        let (command, env_root) = match &binary_path {
            Some(b) => (
                b.clone(),
                match &sdk_path {
                    Some(p) => p.clone(),
                    None => String::new(),
                },
            ),
            None => match self.sdk(worktree) {
                Ok(s) => (s.lsp_path, s.env_root),
                Err(e) => {
                    return Err(e);
                },
            },
        };
        assert(env_root@ == server_env_root(worktree));
        let mut env = worktree.shell_env();
        env.push((String::from_str("MODULAR_TELEMETRY_ENABLED"), String::from_str("false")));
        let mut args: Vec<String> = Vec::new();
        match &worktree.lsp_settings {
            Some(ls) => match &ls.binary {
                Some(b) => {
                    match &b.env {
                        Some(extra) => {
                            let mut copied = crate::keyed::copy_pairs(extra);
                            env.append(&mut copied);
                        },
                        None => {},
                    }
                    match &b.arguments {
                        Some(a) => {
                            args = copy_texts(a);
                        },
                        None => {},
                    }
                },
                None => {},
            },
            None => {},
        }
        let ghost base = pairs_model(worktree.shell_env@) + seq![
            ("MODULAR_TELEMETRY_ENABLED"@, "false"@),
        ] + binary_env_setting(worktree.lsp_settings);
        assert(pairs_model(env@) =~= base);
        assert(texts_model(args@) =~= binary_arguments_setting(worktree.lsp_settings));
        let has_root = !env_root.as_str().is_empty();
        if has_root && (binary_path.is_none() || sdk_path.is_some()) {
            env.push((String::from_str("CONDA_PREFIX"), env_root.clone()));
            env.push((String::from_str("MOJO_SDK_PATH"), env_root.clone()));
            assert(pairs_model(env@) =~= base + seq![
                ("CONDA_PREFIX"@, env_root@),
                ("MOJO_SDK_PATH"@, env_root@),
            ]);
        }
        let bin_dir = match &binary_path {
            Some(b) => parent_dir_of(b),
            None => if has_root {
                Some(join2(env_root.as_str(), "/bin"))
            } else {
                None
            },
        };
        match &bin_dir {
            Some(d) => prefix_path(&mut env, d),
            None => {},
        }
        Ok(Command { command, args, env })
    }
}

} // verus!
