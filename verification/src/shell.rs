//! Resolution of the shell program to run inside the PTY.

use vstd::prelude::*;
use vstd::string::StringExecFns;

verus! {

/// Characters of the fixed fallback shell path, used when the environment
/// supplies no override.
pub open spec fn default_shell() -> Seq<char> {
    "/bin/bash"@
}

/// Picks the shell program: an environment-supplied override wins; without
/// one, the fixed fallback path is used.
pub fn resolve_shell(env_shell: Option<String>) -> (shell: String)
    ensures
        env_shell matches Some(s) ==> shell@ == s@,
        env_shell is None ==> shell@ == default_shell(),
{
    match env_shell {
        Some(s) => s,
        None => String::from_str("/bin/bash"),
    }
}

} // verus!
