//! The environment resolver: a step machine from cache state and tool
//! outcomes to the resolved environment path.
//!
//! Resolution needs the outside world four times — reading the cache file,
//! probing for the cached interpreter, and running up to two discovery
//! tools — so it is phrased as a machine: each function takes the outcome
//! of the previous step as plain values and says what to do next. The
//! embedding program performs each requested `Step` and feeds the result
//! back; every decision in between is made, and verified, here.
//!
//! The two tools differ in failure policy: the primary tool's failure is
//! silently absorbed (it may simply not be installed), while the secondary
//! tool is the last resort, so its failure — or an empty answer from it —
//! is terminal and carries a diagnostic for the user.

use vstd::prelude::*;
use vstd::string::*;

use crate::cache::{
    lemma_append_then_lookup, lemma_last_match_wins, line_matches_dir, line_value, lookup,
    lookup_result, record_line,
};
use crate::text::{lemma_trimmed_idempotent, trim, trimmed};

verus! {

/// What the resolver asks its driver to do next.
pub enum Step {
    /// Check whether `path` still holds a `bin/python` executable.
    CheckCached { path: String },
    /// Run the primary discovery tool and report its outcome.
    RunPrimary,
    /// Run the secondary discovery tool and report its outcome.
    RunSecondary,
    /// Resolution succeeded with `path`; when `fresh` holds, the path was
    /// just discovered and must be appended to the cache store.
    Done { path: String, fresh: bool },
    /// Resolution failed; report `message` and exit with nonzero status.
    Fail { message: String },
}

/// The mathematical image of a `Step`.
pub enum StepModel {
    CheckCached { path: Seq<char> },
    RunPrimary,
    RunSecondary,
    Done { path: Seq<char>, fresh: bool },
    Fail { message: Seq<char> },
}

impl View for Step {
    type V = StepModel;

    open spec fn view(&self) -> StepModel {
        match self {
            Step::CheckCached { path } => StepModel::CheckCached { path: path@ },
            Step::RunPrimary => StepModel::RunPrimary,
            Step::RunSecondary => StepModel::RunSecondary,
            Step::Done { path, fresh } => StepModel::Done { path: path@, fresh: *fresh },
            Step::Fail { message } => StepModel::Fail { message: message@ },
        }
    }
}

/// The first step: a cached value must be validated; a miss goes straight
/// to the primary tool.
pub open spec fn start_step(lines: Seq<Seq<char>>, dir: Seq<char>) -> StepModel {
    match lookup_result(lines, dir) {
        Some(p) => StepModel::CheckCached { path: p },
        None => StepModel::RunPrimary,
    }
}

/// After the liveness probe: a cached path whose interpreter exists is the
/// answer, with nothing written back; otherwise the record is stale and the
/// fallback chain begins.
pub open spec fn liveness_step(path: Seq<char>, python_exists: bool) -> StepModel {
    if python_exists {
        StepModel::Done { path: path, fresh: false }
    } else {
        StepModel::RunPrimary
    }
}

/// After the primary tool: a zero exit with a nonempty answer wins;
/// any failure or empty answer falls through to the secondary tool.
pub open spec fn primary_step(exit_ok: bool, out: Seq<char>) -> StepModel {
    if exit_ok && trimmed(out).len() > 0 {
        StepModel::Done { path: trimmed(out), fresh: true }
    } else {
        StepModel::RunSecondary
    }
}

/// The diagnostic for a secondary tool that exited with failure.
pub open spec fn secondary_failure_message(command: Seq<char>, status: Seq<char>) -> Seq<char> {
    "mk: Command '"@ + command + "' returned "@ + status + "\n\n"@
        + "This usually means there is no venv."@
}

/// The diagnostic for a secondary tool that answered nothing.
pub open spec fn secondary_empty_message() -> Seq<char> {
    "mk: No venv found for current working directory."@
}

/// After the secondary tool: success with a nonempty answer wins; a failing
/// exit or an empty answer is terminal, with the matching diagnostic.
pub open spec fn secondary_step(
    command: Seq<char>,
    exit_ok: bool,
    status: Seq<char>,
    out: Seq<char>,
) -> StepModel {
    if !exit_ok {
        StepModel::Fail { message: secondary_failure_message(command, status) }
    } else if trimmed(out).len() == 0 {
        StepModel::Fail { message: secondary_empty_message() }
    } else {
        StepModel::Done { path: trimmed(out), fresh: true }
    }
}

/// Begins resolution for `dir` over the cache store's lines.
pub fn start(lines: &Vec<String>, dir: &str) -> (s: Step)
    ensures
        s@ == start_step(lines.deep_view(), dir@),
{
    match lookup(lines, dir) {
        Some(p) => Step::CheckCached { path: p },
        None => Step::RunPrimary,
    }
}

/// Continues after the driver probed the cached path's interpreter.
pub fn after_liveness(path: String, python_exists: bool) -> (s: Step)
    ensures
        s@ == liveness_step(path@, python_exists),
{
    if python_exists {
        Step::Done { path, fresh: false }
    } else {
        Step::RunPrimary
    }
}

/// Continues after the driver ran the primary tool. A tool that could not
/// be invoked at all counts as a failing exit.
pub fn after_primary(exit_ok: bool, out: &str) -> (s: Step)
    ensures
        s@ == primary_step(exit_ok, out@),
{
    if exit_ok {
        let t = trim(out);
        if t.as_str().is_empty() {
            Step::RunSecondary
        } else {
            Step::Done { path: t, fresh: true }
        }
    } else {
        Step::RunSecondary
    }
}

/// Concludes after the driver ran the secondary tool: `command` names the
/// invocation for the diagnostic, `status` is the displayed form of the
/// tool's exit status, and `out` is what it wrote on standard output.
pub fn after_secondary(command: &str, exit_ok: bool, status: &str, out: &str) -> (s: Step)
    ensures
        s@ == secondary_step(command@, exit_ok, status@, out@),
{
    if !exit_ok {
        let mut m = String::from_str("mk: Command '");
        m.append(command);
        m.append("' returned ");
        m.append(status);
        m.append("\n\n");
        m.append("This usually means there is no venv.");
        Step::Fail { message: m }
    } else {
        let t = trim(out);
        if t.as_str().is_empty() {
            Step::Fail { message: String::from_str("mk: No venv found for current working directory.") }
        } else {
            Step::Done { path: t, fresh: true }
        }
    }
}

/// Cache-hit determinism: when the store holds exactly one record for `dir`,
/// its value is nonempty, and its interpreter is live, resolution returns
/// that value at once — no tool step is ever requested and nothing is
/// written back.
pub proof fn cache_hit_uses_no_tools(lines: Seq<Seq<char>>, dir: Seq<char>, i: int)
    requires
        0 <= i < lines.len(),
        line_matches_dir(lines[i], dir),
        forall|j: int| 0 <= j < lines.len() && j != i ==> !line_matches_dir(lines[j], dir),
        line_value(lines[i], dir).len() > 0,
    ensures
        start_step(lines, dir) == (StepModel::CheckCached { path: line_value(lines[i], dir) }),
        liveness_step(line_value(lines[i], dir), true) == (StepModel::Done {
            path: line_value(lines[i], dir),
            fresh: false,
        }),
{
    lemma_last_match_wins(lines, dir, i);
}

/// Staleness invalidation: a cached path whose interpreter is gone is
/// treated as a miss — the next step is the primary tool, never a `Done`.
pub proof fn stale_cache_falls_back(path: Seq<char>)
    ensures
        liveness_step(path, false) == StepModel::RunPrimary,
{
}

/// A freshly discovered tool answer, once its record is appended, is what
/// lookup returns for `dir` afterwards; the records the store held before
/// remain in place.
pub proof fn discovered_path_is_recorded(lines: Seq<Seq<char>>, dir: Seq<char>, out: Seq<char>)
    requires
        trimmed(out).len() > 0,
    ensures
        lookup_result(lines.push(record_line(dir, trimmed(out))), dir) == Some(trimmed(out)),
        lines.push(record_line(dir, trimmed(out))).len() == lines.len() + 1,
        forall|j: int| 0 <= j < lines.len() ==> lines.push(record_line(dir, trimmed(out)))[j]
            == lines[j],
{
    lemma_trimmed_idempotent(out);
    lemma_append_then_lookup(lines, dir, trimmed(out));
}

/// Fallback ordering: a primary tool that exits zero with a nonempty answer
/// ends resolution there; the secondary tool is never requested.
pub proof fn primary_success_skips_secondary(out: Seq<char>)
    requires
        trimmed(out).len() > 0,
    ensures
        primary_step(true, out) == (StepModel::Done { path: trimmed(out), fresh: true }),
        primary_step(true, out) != StepModel::RunSecondary,
{
}

/// Fallback escalation: an unavailable primary tool sends resolution to the
/// secondary tool; when that one succeeds, its answer is the result and its
/// record, once appended, is what later lookups return.
pub proof fn primary_failure_escalates(
    lines: Seq<Seq<char>>,
    dir: Seq<char>,
    exit_ok: bool,
    out: Seq<char>,
    command: Seq<char>,
    status: Seq<char>,
    secondary_out: Seq<char>,
)
    requires
        !(exit_ok && trimmed(out).len() > 0),
        trimmed(secondary_out).len() > 0,
    ensures
        primary_step(exit_ok, out) == StepModel::RunSecondary,
        secondary_step(command, true, status, secondary_out) == (StepModel::Done {
            path: trimmed(secondary_out),
            fresh: true,
        }),
        lookup_result(lines.push(record_line(dir, trimmed(secondary_out))), dir) == Some(
            trimmed(secondary_out),
        ),
{
    discovered_path_is_recorded(lines, dir, secondary_out);
}

/// Terminal failure: when the primary tool is unavailable and the secondary
/// tool fails or answers nothing, resolution ends in `Fail` — no `Done` step
/// is produced, so no record is ever written.
pub proof fn both_tools_failing_is_fatal(
    primary_ok: bool,
    primary_out: Seq<char>,
    command: Seq<char>,
    secondary_ok: bool,
    status: Seq<char>,
    secondary_out: Seq<char>,
)
    requires
        !(primary_ok && trimmed(primary_out).len() > 0),
        !(secondary_ok && trimmed(secondary_out).len() > 0),
    ensures
        primary_step(primary_ok, primary_out) == StepModel::RunSecondary,
        secondary_step(command, secondary_ok, status, secondary_out) matches StepModel::Fail { .. },
        !secondary_ok ==> secondary_step(command, secondary_ok, status, secondary_out)
            == (StepModel::Fail { message: secondary_failure_message(command, status) }),
        secondary_ok ==> secondary_step(command, secondary_ok, status, secondary_out)
            == (StepModel::Fail { message: secondary_empty_message() }),
{
}

} // verus!
