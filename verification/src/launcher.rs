//! Building the invocation that runs the project's script under the
//! resolved interpreter.
//!
//! The launcher runs `<environment>/bin/python make.py <args...>` with a
//! search path that puts the environment's `bin` directory first, so that
//! subprocesses the script spawns resolve `python` to the same interpreter.
//! The spawn itself is the embedding program's; the program name, argument
//! list and derived search path are built and verified here.

use vstd::prelude::*;
use vstd::string::*;

verus! {

/// The interpreter inside an environment: `<env>/bin/python`.
pub open spec fn python_bin(env_path: Seq<char>) -> Seq<char> {
    env_path + "/bin/python"@
}

/// An environment's executable directory: `<env>/bin`.
pub open spec fn bin_dir(env_path: Seq<char>) -> Seq<char> {
    env_path + "/bin"@
}

/// The derived search path: the environment's `bin` directory, then the
/// list separator, then the ambient search path.
pub open spec fn search_path_with_bin(env_path: Seq<char>, ambient: Seq<char>) -> Seq<char> {
    bin_dir(env_path) + ":"@ + ambient
}

/// The script the launcher requires in the project directory:
/// `<dir>/make.py`.
pub open spec fn script_file(dir: Seq<char>) -> Seq<char> {
    dir + "/make.py"@
}

/// Everything the embedding program needs to spawn the script: the program
/// to run, its argument list, and the value for the search-path variable.
pub struct LaunchPlan {
    pub program: String,
    pub args: Vec<String>,
    pub search_path: String,
}

/// The path of the script that must exist before any resolution work.
pub fn script_path(dir: &str) -> (r: String)
    ensures
        r@ == script_file(dir@),
{
    let mut r = dir.to_owned();
    r.append("/make.py");
    r
}

/// The interpreter path used both for the liveness probe and the spawn.
pub fn python_bin_path(env_path: &str) -> (r: String)
    ensures
        r@ == python_bin(env_path@),
{
    let mut r = env_path.to_owned();
    r.append("/bin/python");
    r
}

/// Builds the full invocation for `env_path`: its interpreter as program,
/// `make.py` followed by the caller's arguments forwarded in order, and the
/// ambient search path with the environment's `bin` directory prepended.
pub fn build_launch_plan(env_path: &str, ambient_path: &str, forwarded: &Vec<String>) -> (p:
    LaunchPlan)
    ensures
        p.program@ == python_bin(env_path@),
        p.search_path@ == search_path_with_bin(env_path@, ambient_path@),
        p.args@.len() == forwarded@.len() + 1,
        p.args@[0]@ == "make.py"@,
        forall|k: int| 0 <= k < forwarded@.len() ==> #[trigger] p.args@[k + 1]@ == forwarded@[k]@,
{
    let program = python_bin_path(env_path);
    let mut search_path = env_path.to_owned();
    search_path.append("/bin");
    search_path.append(":");
    search_path.append(ambient_path);
    let mut args: Vec<String> = Vec::new();
    args.push(String::from_str("make.py"));
    let mut idx: usize = 0;
    while idx < forwarded.len()
        invariant
            idx <= forwarded.len(),
            args@.len() == idx + 1,
            args@[0]@ == "make.py"@,
            forall|k: int| 0 <= k < idx ==> #[trigger] args@[k + 1]@ == forwarded@[k]@,
        decreases forwarded.len() - idx,
    {
        args.push(forwarded[idx].clone());
        idx = idx + 1;
    }
    LaunchPlan { program, args, search_path }
}

/// The derived search path starts with the environment's `bin` directory,
/// so the resolved interpreter shadows any other `python` on the ambient
/// path.
pub proof fn bin_dir_is_search_path_prefix(env_path: Seq<char>, ambient: Seq<char>)
    ensures
        search_path_with_bin(env_path, ambient).subrange(0, bin_dir(env_path).len() as int)
            == bin_dir(env_path),
{
    assert(search_path_with_bin(env_path, ambient).subrange(0, bin_dir(env_path).len() as int)
        =~= bin_dir(env_path));
}

} // verus!
