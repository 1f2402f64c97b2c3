//! The user's settings for the Mojo language server.

use vstd::prelude::*;

use crate::json::{as_str, get, JsonValue};

verus! {

/// The settings of a command: its path, its arguments and its environment.
#[derive(Clone, Debug, PartialEq, Eq)]
pub struct CommandSettings {
    pub path: Option<String>,
    pub arguments: Option<Vec<String>>,
    pub env: Option<Vec<(String, String)>>,
}

/// The settings for one language server.
#[derive(Debug, PartialEq, Eq)]
pub struct LspSettings {
    /// The settings for the language server binary.
    pub binary: Option<CommandSettings>,
    /// The settings passed to the language server.
    pub settings: Option<JsonValue>,
}

/// The `mojo_sdk_path` of the server's settings, where it is a string.
pub open spec fn sdk_path_setting(s: Option<LspSettings>) -> Option<Seq<char>> {
    match s {
        Some(ls) => match ls.settings {
            Some(v) => as_str(get(v@, "mojo_sdk_path"@)),
            None => None,
        },
        None => None,
    }
}

/// The path of the server's binary, where one is set.
pub open spec fn binary_path_setting(s: Option<LspSettings>) -> Option<Seq<char>> {
    match s {
        Some(ls) => match ls.binary {
            Some(b) => match b.path {
                Some(p) => Some(p@),
                None => None,
            },
            None => None,
        },
        None => None,
    }
}

/// The arguments set for the server's binary.
pub open spec fn binary_arguments_setting(s: Option<LspSettings>) -> Seq<Seq<char>> {
    match s {
        Some(ls) => match ls.binary {
            Some(b) => match b.arguments {
                Some(a) => a@.map_values(|x: String| x@),
                None => Seq::empty(),
            },
            None => Seq::empty(),
        },
        None => Seq::empty(),
    }
}

/// The environment set for the server's binary.
pub open spec fn binary_env_setting(s: Option<LspSettings>) -> Seq<(Seq<char>, Seq<char>)> {
    match s {
        Some(ls) => match ls.binary {
            Some(b) => match b.env {
                Some(e) => crate::keyed::pairs_model(e@),
                None => Seq::empty(),
            },
            None => Seq::empty(),
        },
        None => Seq::empty(),
    }
}

} // verus!
