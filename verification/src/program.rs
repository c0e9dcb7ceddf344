//! Programs as the fault sites they contain, and the build configuration.
//!
//! The model keeps, of a whole program, exactly what the protocol reads: for
//! each operation that can fault at runtime, whether some execution actually
//! takes its failure edge, and whether the optimizer can prove that edge
//! unreachable.

use vstd::prelude::*;

verus! {

/// One place in a program where the runtime would invoke the fault handler:
/// a bounds check, an arithmetic overflow check, an explicit abort, a failed
/// invariant. The compiler front end creates one for every operation with
/// possible-fault semantics.
#[derive(Clone, Copy, PartialEq, Eq, Structural, Debug)]
pub struct FaultSite {
    /// Some execution of the program actually takes this site's failure edge.
    pub taken_in_some_run: bool,
    /// The optimizer can prove this site's failure edge unreachable under the
    /// program's actual data and control flow.
    pub provably_dead: bool,
}

impl FaultSite {
    /// The optimizer is sound: it only proves dead what no execution reaches.
    /// A site it cannot prove dead may still never be taken — the analysis is
    /// incomplete, and that direction is deliberately left open.
    pub open spec fn wf(self) -> bool {
        self.provably_dead ==> !self.taken_in_some_run
    }
}

/// A whole program, seen as the fault sites its operations contribute. Only a
/// final linked program is modelled: its call graph is closed, which is what
/// lets the optimizer reason about every site.
pub struct Program {
    /// Every fault site in the program, in program order.
    pub sites: Vec<FaultSite>,
}

impl Program {
    /// Every site obeys the optimizer's soundness.
    pub open spec fn wf(self) -> bool {
        forall|i: int| 0 <= i < self.sites@.len() ==> (#[trigger] self.sites@[i]).wf()
    }

    /// A nontrivial program has at least one fault site; in practice even a
    /// program with no fault-prone operations of its own gains sites from the
    /// surrounding startup and library machinery.
    pub open spec fn nontrivial(self) -> bool {
        self.sites@.len() > 0
    }

    /// Some execution of the program reaches a fault handler invocation.
    pub open spec fn some_fault_taken(self) -> bool {
        exists|i: int| 0 <= i < self.sites@.len() && (#[trigger] self.sites@[i]).taken_in_some_run
    }

    /// A program with no fault sites yet.
    pub fn new() -> (p: Program)
        ensures
            p.sites@ =~= Seq::<FaultSite>::empty(),
            p.wf(),
    {
        Program { sites: Vec::new() }
    }

    /// Records one more fault site, at the end of program order.
    pub fn add_site(&mut self, site: FaultSite)
        ensures
            final(self).sites@ == old(self).sites@.push(site),
    {
        self.sites.push(site);
    }

    /// How many fault sites the program contains.
    pub fn site_count(&self) -> (n: usize)
        ensures
            n == self.sites@.len(),
    {
        self.sites.len()
    }
}

/// The build configuration the pipeline runs under. The protocol is only
/// sound when whole-program dead-code elimination is on; a configuration
/// without it keeps every fault check, and the model must say what happens
/// then too.
#[derive(Clone, Copy, PartialEq, Eq, Structural, Debug)]
pub struct BuildConfig {
    /// The optimizer deletes code it proves unreachable.
    pub dead_code_elimination: bool,
}

impl BuildConfig {
    /// An optimized build: whole-program dead-code elimination is on.
    pub fn release() -> (c: BuildConfig)
        ensures
            c.dead_code_elimination,
    {
        BuildConfig { dead_code_elimination: true }
    }

    /// A diagnostic build: every fault check is kept as written.
    pub fn debug() -> (c: BuildConfig)
        ensures
            !c.dead_code_elimination,
    {
        BuildConfig { dead_code_elimination: false }
    }
}

} // verus!
