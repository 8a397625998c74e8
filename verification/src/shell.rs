//! The shell kinds a completion script can be generated for.

use vstd::prelude::*;

verus! {

/// The kind of shell a completion script is meant for. Determines which
/// instruction banner and which augmentation pass apply.
pub enum ShellKind {
    Bash,
    Zsh,
    Fish,
    PowerShell,
    Elvish,
    /// A shell this tool knows no static generator for; carries its name.
    Other(String),
}

impl ShellKind {
    /// A static completion script can be generated for every kind but `Other`.
    pub open spec fn has_generator(self) -> bool {
        !(self is Other)
    }
}

} // verus!
