//! Configuration of the launched target's environment.
//!
//! The launcher creates the child process, which requests tracing and then
//! replaces its image with the target executable, passing no argument beyond
//! the program name itself and an explicitly configured environment.  The
//! configuration says whether the parent's environment is inherited and which
//! variables are set on top of it; overrides come first, so a lookup that
//! takes the first match sees the override rather than the inherited value.
//!
//! The forking, the exec, and the reading of the parent's environment are the
//! shell's; this module computes the exact variable list the child receives.

use vstd::prelude::*;

verus! {

/// How the launched target's environment is built.
pub struct LaunchConfig {
    /// Whether the parent's environment variables are passed along.
    pub inherit_parent_env: bool,
    /// Variables set for the target, as `(name, value)` pairs; they precede
    /// any inherited variables.
    pub overrides: Vec<(String, String)>,
}

impl LaunchConfig {
    /// A configuration that hands the target exactly the given variables and
    /// nothing of the parent's environment.
    pub fn fixed(overrides: Vec<(String, String)>) -> (config: LaunchConfig)
        ensures
            !config.inherit_parent_env,
            config.overrides == overrides,
    {
        LaunchConfig { inherit_parent_env: false, overrides }
    }

    /// A configuration that extends the parent's environment with the given
    /// variables, the overrides taking precedence.
    pub fn inheriting(overrides: Vec<(String, String)>) -> (config: LaunchConfig)
        ensures
            config.inherit_parent_env,
            config.overrides == overrides,
    {
        LaunchConfig { inherit_parent_env: true, overrides }
    }
}

/// The exact environment the launched target receives: the configured
/// overrides, followed by the parent's variables when inheritance is on and
/// by nothing otherwise.
pub fn build_environment(config: LaunchConfig, parent_env: Vec<(String, String)>) -> (env: Vec<
    (String, String),
>)
    ensures
        config.inherit_parent_env ==> env@ == config.overrides@ + parent_env@,
        !config.inherit_parent_env ==> env@ == config.overrides@,
{
    let inherit = config.inherit_parent_env;
    let mut env = config.overrides;
    if inherit {
        let mut parent = parent_env;
        env.append(&mut parent);
    }
    env
}

/// Which side of the process-creation fork this is, decided from the OS's
/// return value: zero in the new child, the child's process id in the
/// parent, and a negative value when no process was created.
#[derive(Clone, Copy, Debug, PartialEq, Eq, Structural)]
pub enum ForkRole {
    /// The new child: it must request tracing and exec the target.
    Child,
    /// The original process: it now traces the child with this id.
    Parent { child_pid: i32 },
    /// The fork failed with this error code; no child exists.
    Failed { errno: i32 },
}

/// Classify the return value of the process-creation fork, with the error
/// indicator read when the value is negative.
pub fn classify_fork(fork_result: i32, errno: i32) -> (role: ForkRole)
    ensures
        fork_result == 0 ==> role == ForkRole::Child,
        fork_result > 0 ==> role == (ForkRole::Parent { child_pid: fork_result }),
        fork_result < 0 ==> role == (ForkRole::Failed { errno }),
{
    if fork_result == 0 {
        ForkRole::Child
    } else if fork_result > 0 {
        ForkRole::Parent { child_pid: fork_result }
    } else {
        ForkRole::Failed { errno }
    }
}

} // verus!
