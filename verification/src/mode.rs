//! Run-mode derivation: how the purge, dry-run and force flags, together with
//! the outcome of the confirmation prompt, determine what a run may do.

use vstd::prelude::*;

verus! {

/// What a run does after the scan: report only, preview the purge, or purge.
#[derive(Clone, Copy, Debug, PartialEq, Eq, Structural)]
pub enum RunMode {
    /// Print the discovered files and the totals; touch nothing.
    Report,
    /// Report, and additionally list every path a purge would remove,
    /// without mutating the filesystem.
    DryRunPurge,
    /// Report, and delete every discovered file.
    Purge,
}

/// The mode a run settles on, given the three flags and the confirmation
/// answer. `None` means the user refused the prompt and the run stops before
/// any scan. The answer is consulted only when a prompt is owed, that is when
/// purge is requested and neither force nor dry-run is set.
pub open spec fn spec_decide_mode(
    purge: bool,
    dry_run: bool,
    force: bool,
    confirmed: bool,
) -> Option<RunMode> {
    if !purge {
        Some(RunMode::Report)
    } else if !force && !dry_run && !confirmed {
        None
    } else if dry_run {
        Some(RunMode::DryRunPurge)
    } else {
        Some(RunMode::Purge)
    }
}

/// True when a run must block on the interactive prompt before anything else:
/// purge was requested and neither force nor dry-run bypasses the question.
pub fn needs_confirmation(purge: bool, dry_run: bool, force: bool) -> (b: bool)
    ensures
        b == (purge && !force && !dry_run),
{
    purge && !force && !dry_run
}

/// True when the line read from the prompt counts as consent: a bare newline
/// (the user just pressed enter) or a leading 'y' or 'Y'. An empty string,
/// which is what a closed input yields, is a refusal, as is anything else.
pub open spec fn spec_confirmed(line: Seq<char>) -> bool {
    line.len() > 0 && (line[0] == 'y' || line[0] == 'Y' || line[0] == '\n')
}

/// Interprets one line read from the confirmation prompt.
pub fn interpret_confirmation(line: &str) -> (b: bool)
    ensures
        b == spec_confirmed(line@),
{
    let n = line.unicode_len();
    if n == 0 {
        false
    } else {
        let c = line.get_char(0);
        c == 'y' || c == 'Y' || c == '\n'
    }
}

/// Settles the run mode from the flags and the confirmation answer.
/// `confirmed` matters only when a prompt was owed; callers that owed none
/// may pass anything.
pub fn decide_mode(purge: bool, dry_run: bool, force: bool, confirmed: bool) -> (m: Option<
    RunMode,
>)
    ensures
        m == spec_decide_mode(purge, dry_run, force, confirmed),
{
    if !purge {
        Some(RunMode::Report)
    } else if !force && !dry_run && !confirmed {
        None
    } else if dry_run {
        Some(RunMode::DryRunPurge)
    } else {
        Some(RunMode::Purge)
    }
}

/// Destructive action is explicitly gated. The mode comes out as `Purge` only
/// when purge was requested without dry-run and either force was set or the
/// prompt was answered with consent; a dry-run never yields `Purge`; and the
/// run is cancelled only at the prompt, by a refusal.
pub proof fn lemma_purge_gated(purge: bool, dry_run: bool, force: bool, confirmed: bool)
    ensures
        spec_decide_mode(purge, dry_run, force, confirmed) == Some(RunMode::Purge) ==> purge
            && !dry_run && (force || confirmed),
        dry_run ==> spec_decide_mode(purge, dry_run, force, confirmed) != Some(RunMode::Purge),
        spec_decide_mode(purge, dry_run, force, confirmed) is None <==> (purge && !force && !dry_run
            && !confirmed),
{
}

} // verus!
