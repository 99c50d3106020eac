//! Input and output value objects of the registry, and shell resolution.
use vstd::prelude::*;

verus! {

/// What a spawn request asks for: an optional explicit shell path, the
/// initial terminal size in character cells (both dimensions must be
/// positive), and extra environment variables for the child. Entries are
/// applied in order, so a later entry for the same name overwrites an
/// earlier one when merged with the process defaults.
#[derive(Debug, Clone)]
pub struct SpawnOptions {
    pub shell: Option<String>,
    pub cols: u16,
    pub rows: u16,
    pub env: Option<Vec<(String, String)>>,
}

/// The immutable snapshot handed back on a successful spawn: the fresh
/// session identifier, the OS process id of the shell (0 where the OS
/// cannot report one), and the shell path that was actually used.
#[derive(Debug, Clone)]
pub struct SessionInfo {
    pub id: String,
    pub pid: u32,
    pub shell: String,
}

/// The shell a spawn resolves to: the explicit option wins, else the
/// environment's default shell, else the hardcoded fallback path.
pub open spec fn resolved_shell(explicit: Option<String>, env_default: Option<String>) -> Seq<char> {
    match explicit {
        Some(s) => s@,
        None => match env_default {
            Some(s) => s@,
            None => "/bin/bash"@,
        },
    }
}

/// Picks the shell for a spawn. `env_default` is the surrounding
/// environment's default shell, handed in by the caller.
pub fn resolve_shell(explicit: Option<String>, env_default: Option<String>) -> (r: String)
    ensures
        r@ == resolved_shell(explicit, env_default),
{
    match explicit {
        Some(s) => s,
        None => match env_default {
            Some(s) => s,
            None => "/bin/bash".to_owned(),
        },
    }
}

} // verus!
