//! How the worker is launched: which runtime runs its entry script, and the
//! module search path it is given.
use vstd::prelude::*;

use crate::error::SidecarError;

verus! {

/// Environment variable that pins the runtime executable.
pub const RUNTIME_OVERRIDE_VAR: &'static str = "VFX_PYTHON_PATH";

/// Runtime inside the local virtual environment, relative to the working
/// directory.
pub const VENV_RUNTIME: &'static str = "venv/bin/python";

/// Runtime used when neither an override nor a virtual environment is found.
pub const DEFAULT_RUNTIME: &'static str = "python3";

/// Environment variable holding the worker's module search path.
pub const SEARCH_PATH_VAR: &'static str = "PYTHONPATH";

/// What the host needs to spawn the worker.
#[derive(Debug, Clone)]
pub struct LaunchPlan {
    /// The runtime executable.
    pub program: String,
    /// The entry script, passed as the one argument.
    pub script: String,
    /// The value of the module search path variable for the worker.
    pub search_path: String,
}

/// The runtime chosen: the override if set, else the virtual environment's
/// runtime if it exists, else the default.
pub open spec fn runtime_choice(
    override_exe: Option<Seq<char>>,
    venv_runtime: Option<Seq<char>>,
) -> Seq<char> {
    match override_exe {
        Some(p) => p,
        None => match venv_runtime {
            Some(v) => v,
            None => DEFAULT_RUNTIME@,
        },
    }
}

/// The search path: the inherited value with `dir` appended after a colon,
/// or `dir` alone when nothing is inherited.
pub open spec fn merged_search_path(inherited: Option<Seq<char>>, dir: Seq<char>) -> Seq<char> {
    match inherited {
        Some(p) => p + ":"@ + dir,
        None => dir,
    }
}

/// The directory the worker imports from: the script's directory, or `.`
/// when the script path has none.
pub open spec fn import_dir(script_dir: Option<Seq<char>>) -> Seq<char> {
    match script_dir {
        Some(d) => d,
        None => "."@,
    }
}

pub open spec fn opt_view(o: Option<String>) -> Option<Seq<char>> {
    match o {
        Some(s) => Some(s@),
        None => None,
    }
}

/// Picks the runtime executable. `venv_runtime` is the virtual
/// environment's runtime when it exists.
pub fn select_runtime(override_exe: Option<String>, venv_runtime: Option<String>) -> (r: String)
    ensures
        r@ == runtime_choice(opt_view(override_exe), opt_view(venv_runtime)),
{
    match override_exe {
        Some(p) => p,
        None => match venv_runtime {
            Some(v) => v,
            None => String::from_str(DEFAULT_RUNTIME),
        },
    }
}

/// Adds `dir` to an inherited search path, keeping what was there.
pub fn merge_search_path(inherited: Option<String>, dir: &str) -> (r: String)
    ensures
        r@ == merged_search_path(opt_view(inherited), dir@),
{
    match inherited {
        Some(p) => {
            let mut s = p;
            s.append(":");
            s.append(dir);
            s
        },
        None => String::from_str(dir),
    }
}

/// The plan for launching the entry script at the resolved path `script`,
/// whose containing directory is `script_dir`. Fails with `NotFound` exactly
/// when the script does not exist.
pub fn plan_launch(
    script: String,
    script_exists: bool,
    script_dir: Option<String>,
    override_exe: Option<String>,
    venv_runtime: Option<String>,
    inherited_search_path: Option<String>,
) -> (r: Result<LaunchPlan, SidecarError>)
    ensures
        !script_exists <==> r is Err,
        r matches Err(e) ==> e is NotFound,
        r matches Ok(plan) ==> {
            &&& plan.script == script
            &&& plan.program@ == runtime_choice(opt_view(override_exe), opt_view(venv_runtime))
            &&& plan.search_path@ == merged_search_path(
                opt_view(inherited_search_path),
                import_dir(opt_view(script_dir)),
            )
        },
{
    if !script_exists {
        let mut msg = String::from_str("worker script not found: ");
        msg.append(script.as_str());
        return Err(SidecarError::NotFound(msg));
    }
    let program = select_runtime(override_exe, venv_runtime);
    let dir = match script_dir {
        Some(d) => d,
        None => String::from_str("."),
    };
    let search_path = merge_search_path(inherited_search_path, dir.as_str());
    Ok(LaunchPlan { program, script, search_path })
}

} // verus!
