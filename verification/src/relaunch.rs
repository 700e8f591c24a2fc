//! The bootstrap decision (POSIX only): whether the process must re-execute
//! itself once so the dynamic loader sees the native-library directory in
//! its search path, and with what environment.
//!
//! The loader resolves a newly opened library's own dependencies through a
//! search-path environment variable that must be set before the process
//! starts, so the fix is to spawn the same executable once with the adjusted
//! variable and a recursion-guard variable, wait, and exit with the child's
//! code. The guard makes the spawned child decide to proceed instead
//! ([`lemma_relaunch_once`]). This module only decides and computes; reading
//! the environment, spawning and waiting belong to the caller.

use crate::xerror::{XError, XResult};
use vstd::prelude::*;
use vstd::string::StringExecFns;

verus! {

/// Name of the recursion-guard environment variable, defined and consumed
/// solely by this layer to detect an already-relaunched process.
pub const GUARD_VAR: &'static str = "__RECURSION_HACK__";

/// Value the guard variable carries in the spawned child.
pub const GUARD_VALUE: &'static str = "1";

/// Name of the dynamic loader's library-search-path variable.
pub const SEARCH_PATH_VAR: &'static str = "LD_LIBRARY_PATH";

/// What the bootstrap step must do.
pub enum RelaunchPlan {
    /// The guard variable is already set: this process is the relaunched
    /// child. Go on to load the native libraries; never spawn again.
    Proceed,
    /// Spawn the same executable with the same arguments once, with the
    /// guard variable set to [`GUARD_VALUE`] and the search-path variable
    /// set to `library_path`; wait for it and exit with its code.
    Spawn { library_path: String },
}

impl RelaunchPlan {
    /// True when the plan spawns a child process.
    pub open spec fn is_spawn(&self) -> bool {
        self is Spawn
    }
}

/// True when the guard variable's value marks an already-relaunched process.
pub open spec fn guard_set(guard: Option<Seq<char>>) -> bool {
    guard matches Some(g) && g == "1"@
}

/// The search path the spawned child must see: the native-library directory,
/// prepended to the previous value when there was one.
pub open spec fn augmented_path(lib_dir: Seq<char>, current: Option<Seq<char>>) -> Seq<char> {
    match current {
        Some(p) => lib_dir + ":"@ + p,
        None => lib_dir,
    }
}

/// Decides the bootstrap step from the environment: the guard variable's
/// value (if present), the resolved native-library directory, and the
/// current value of the search-path variable (if present).
pub fn relaunch_plan(guard: Option<&str>, lib_dir: &str, current_path: Option<&str>) -> (r:
    RelaunchPlan)
    ensures
        r.is_spawn() <==> !guard_set(guard.deep_view()),
        r matches RelaunchPlan::Spawn { library_path } ==> library_path@ == augmented_path(
            lib_dir@,
            current_path.deep_view(),
        ),
{
    let already_relaunched = match guard {
        Some(g) => String::from_str(g) == String::from_str("1"),
        None => false,
    };
    if already_relaunched {
        RelaunchPlan::Proceed
    } else {
        let library_path = match current_path {
            Some(p) => String::from_str(lib_dir).concat(":").concat(p),
            None => String::from_str(lib_dir),
        };
        RelaunchPlan::Spawn { library_path }
    }
}

/// Translates how the relaunched child ended into this process's own exit:
/// a child that exited hands back its exit code; a child terminated by a
/// signal (no exit code) is an unrecoverable process failure.
pub fn relaunch_exit_code(code: Option<i32>) -> (r: XResult<i32>)
    ensures
        code matches Some(c) ==> r matches Ok(rc) && rc == c,
        code is None ==> (r matches Err(e) && e matches XError::IoFailure(_)),
{
    match code {
        Some(c) => Ok(c),
        None => Err(XError::IoFailure(String::from_str("child process terminated by a signal"))),
    }
}

/// The guard variable a child process inherits when the bootstrap runs in
/// an environment whose guard is `guard`: a spawning parent hands the child
/// [`GUARD_VALUE`]; a non-spawning bootstrap leaves the environment as it is.
pub open spec fn inherited_guard(guard: Option<Seq<char>>) -> Option<Seq<char>> {
    if !guard_set(guard) {
        Some("1"@)
    } else {
        guard
    }
}

/// Recursion guard: running the bootstrap again in the environment the first
/// run leaves behind (as the spawned child does) never spawns a second
/// child, whatever environment the first run started from. So at most one
/// child is ever spawned, and the library-opening sequence that follows a
/// [`RelaunchPlan::Proceed`] runs in exactly one process.
pub proof fn lemma_relaunch_once(guard: Option<Seq<char>>)
    ensures
        guard_set(inherited_guard(guard)),
{
}

} // verus!
