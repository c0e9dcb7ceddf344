//! The pipeline's guarantees, proved once and for all programs.
//!
//! The check the pipeline performs is sound but incomplete: a successful link
//! proves that no fault path is ever taken, while a rejected build only says
//! that the optimizer could not prove every fault path dead — not that one is
//! live. The lemmas here state both directions, together with what happens
//! without dead-code elimination and that the pipeline is deterministic.

use vstd::prelude::*;

use crate::pipeline::BuildOutcome;
use crate::pipeline::build_outcome_matches;
use crate::pipeline::same_outcome;
use crate::pipeline::survives;
use crate::program::BuildConfig;
use crate::program::Program;
use crate::symbol::contains_text;
use crate::symbol::lemma_report_contains_symbol;
use crate::symbol::reference_symbol_text;

verus! {

/// Soundness: under dead-code elimination, if the build links, no execution
/// of the program ever reaches the fault handler. The optimizer only deletes
/// edges it proves unreachable, and only a build with no surviving edge
/// links, so every fault edge of a linked binary is one no run takes.
pub proof fn lemma_soundness(p: Program, c: BuildConfig, r: BuildOutcome)
    requires
        p.wf(),
        c.dead_code_elimination,
        build_outcome_matches(r, p.sites@, c),
        r is Linked,
    ensures
        !p.some_fault_taken(),
{
    assert forall|i: int| 0 <= i < p.sites@.len() implies !(#[trigger] p.sites@[i]).taken_in_some_run by {
        assert(!survives(p.sites@[i], c));
        assert(p.sites@[i].wf());
    }
}

/// Conservatism: whatever the configuration, if the program holds a fault
/// path the optimizer cannot prove unreachable, the build is rejected, and
/// the rejection's text contains the chosen symbol. The check errs only in
/// the caller's favor: a path that is dead in fact but not provably so still
/// fails the build.
pub proof fn lemma_conservatism(p: Program, c: BuildConfig, r: BuildOutcome)
    requires
        build_outcome_matches(r, p.sites@, c),
        exists|i: int| 0 <= i < p.sites@.len() && !(#[trigger] p.sites@[i]).provably_dead,
    ensures
        r matches BuildOutcome::Rejected(u) && contains_text(u.report@, reference_symbol_text()),
{
    let i = choose|i: int| 0 <= i < p.sites@.len() && !(#[trigger] p.sites@[i]).provably_dead;
    assert(survives(p.sites@[i], c));
    lemma_report_contains_symbol();
}

/// Without dead-code elimination, every nontrivial program fails to build,
/// however fault-free its logic: no fault edge is deleted, so the first one
/// is already an unresolved reference. This is documented behaviour of the
/// mechanism, not a defect of the program.
pub proof fn lemma_unoptimized_build_rejects(p: Program, c: BuildConfig, r: BuildOutcome)
    requires
        !c.dead_code_elimination,
        p.nontrivial(),
        build_outcome_matches(r, p.sites@, c),
    ensures
        r matches BuildOutcome::Rejected(u) && contains_text(u.report@, reference_symbol_text()),
{
    assert(survives(p.sites@[0], c));
    lemma_report_contains_symbol();
}

/// Idempotence: the outcome of a build is a function of the program and the
/// configuration alone. Two builds of the same program under the same
/// configuration either both link or both fail with the identical report.
pub proof fn lemma_build_deterministic(
    p: Program,
    c: BuildConfig,
    r1: BuildOutcome,
    r2: BuildOutcome,
)
    requires
        build_outcome_matches(r1, p.sites@, c),
        build_outcome_matches(r2, p.sites@, c),
    ensures
        same_outcome(r1, r2),
{
}

} // verus!
