//! What the extension observes of a worktree and of the host it runs on.

use vstd::prelude::*;

use crate::keyed::{copy_pairs, pair_value, pairs_model, value_of};
use crate::platform::Os;
use crate::settings::LspSettings;

verus! {

/// What the extension observes of a worktree: its root, the host platform, the settings of the
/// Mojo language server, the text files it read, the executables found on the `PATH` and the
/// environment of the user's shell.
#[derive(Debug, PartialEq, Eq)]
pub struct Worktree {
    pub root_path: String,
    pub os: Os,
    /// The settings of `mojo-lsp-server`, where the editor gave them.
    pub lsp_settings: Option<LspSettings>,
    /// Text files that could be read, as (path, content).
    pub text_files: Vec<(String, String)>,
    /// Executables found on the `PATH`, as (name, path).
    pub executables: Vec<(String, String)>,
    /// The environment of the user's shell, as (name, value).
    pub shell_env: Vec<(String, String)>,
}

/// The content of the text file at `path`, where it could be read.
pub open spec fn file_text(w: &Worktree, path: Seq<char>) -> Option<Seq<char>> {
    value_of(pairs_model(w.text_files@), path)
}

/// Where the executable `name` was found on the `PATH`.
pub open spec fn which_path(w: &Worktree, name: Seq<char>) -> Option<Seq<char>> {
    value_of(pairs_model(w.executables@), name)
}

impl Worktree {
    /// The root path of the worktree.
    pub fn root_path(&self) -> (r: String)
        ensures
            r@ == self.root_path@,
    {
        self.root_path.clone()
    }

    /// The content of the text file at `path`, where it could be read.
    pub fn read_text_file(&self, path: &str) -> (r: Option<String>)
        ensures
            match r {
                Some(c) => file_text(self, path@) == Some(c@),
                None => file_text(self, path@) is None,
            },
    {
        pair_value(&self.text_files, path)
    }

    /// Where the executable `name` was found on the `PATH`.
    pub fn which(&self, name: &str) -> (r: Option<String>)
        ensures
            match r {
                Some(p) => which_path(self, name@) == Some(p@),
                None => which_path(self, name@) is None,
            },
    {
        pair_value(&self.executables, name)
    }

    /// The environment of the user's shell.
    pub fn shell_env(&self) -> (r: Vec<(String, String)>)
        ensures
            pairs_model(r@) == pairs_model(self.shell_env@),
    {
        copy_pairs(&self.shell_env)
    }
}

} // verus!
