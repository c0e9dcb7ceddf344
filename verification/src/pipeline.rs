//! The build pipeline: compile, optimize, link.
//!
//! The pipeline is linear: `Source` is compiled to object code, the optimizer
//! deletes every fault edge it can prove dead, and the link stage either
//! resolves every remaining reference or rejects the build with an
//! undefined-symbol report. Nothing of the mechanism survives into a linked
//! binary: either no fault edge outlived the optimizer, or the binary was
//! never produced.

use vstd::prelude::*;

use crate::program::BuildConfig;
use crate::program::FaultSite;
use crate::program::Program;
use crate::symbol::contains_text;
use crate::symbol::lemma_report_contains_symbol;
use crate::symbol::reference_symbol;
use crate::symbol::reference_symbol_text;
use crate::symbol::undefined_symbol_diagnostic;
use crate::symbol::undefined_symbol_report;

verus! {

/// The process-wide fault handler: the one routine the runtime invokes on any
/// fault condition. Its whole body is a single call to the reference symbol,
/// and it is declared diverging so that every fault site stays well-typed
/// without a fallthrough value.
pub struct FaultHandler {
    /// The call targets the handler's body names.
    pub call_targets: Vec<String>,
    /// The handler never returns.
    pub declared_diverging: bool,
}

impl FaultHandler {
    /// The handler's defining invariant: it diverges, and it contains exactly
    /// one call, to the reference symbol. Any other work in its body would
    /// itself be a potential fault site.
    pub open spec fn wf(self) -> bool {
        &&& self.declared_diverging
        &&& self.call_targets@.len() == 1
        &&& self.call_targets@[0]@ == reference_symbol_text()
    }

    /// The one fault handler a binary registers.
    pub fn new() -> (h: FaultHandler)
        ensures
            h.wf(),
    {
        let mut targets: Vec<String> = Vec::new();
        targets.push(String::from_str(reference_symbol()));
        FaultHandler { call_targets: targets, declared_diverging: true }
    }

    /// The single symbol the handler's body calls.
    pub fn target(&self) -> (t: &String)
        requires
            self.wf(),
        ensures
            t@ == reference_symbol_text(),
    {
        &self.call_targets[0]
    }
}

/// The set of symbols the link stage can resolve: everything defined in the
/// program and in the units linked with it. The mechanism's load-bearing
/// property is what this set lacks: the reference symbol is never in it.
pub struct LinkClosure {
    /// Every symbol with a definition the linker can see.
    pub defined_symbols: Vec<String>,
}

impl LinkClosure {
    /// The closure holds a definition for the named symbol.
    pub open spec fn defines(self, name: Seq<char>) -> bool {
        exists|i: int|
            0 <= i < self.defined_symbols@.len() && (#[trigger] self.defined_symbols@[i])@ == name
    }

    /// The reference symbol is absent. Its absence is deliberate: an
    /// unresolved reference to it is how a surviving fault path is reported.
    pub open spec fn wf(self) -> bool {
        !self.defines(reference_symbol_text())
    }

    /// A closure with no definitions yet.
    pub fn new() -> (c: LinkClosure)
        ensures
            c.defined_symbols@ =~= Seq::<String>::empty(),
            c.wf(),
    {
        LinkClosure { defined_symbols: Vec::new() }
    }

    /// Records one more defined symbol.
    pub fn define_symbol(&mut self, name: String)
        ensures
            final(self).defined_symbols@ == old(self).defined_symbols@.push(name),
    {
        self.defined_symbols.push(name);
    }

    /// Whether a reference to `name` resolves against this closure.
    pub fn resolves(&self, name: &String) -> (b: bool)
        ensures
            b == self.defines(name@),
    {
        let n: usize = self.defined_symbols.len();
        let mut i: usize = 0;
        while i < n
            invariant
                i <= n,
                n == self.defined_symbols@.len(),
                forall|j: int| 0 <= j < i ==> (#[trigger] self.defined_symbols@[j])@ != name@,
            decreases n - i,
        {
            let cur: &String = &self.defined_symbols[i];
            if *cur == *name {
                return true;
            }
            i += 1;
        }
        false
    }
}

/// A program's compiled form, reduced to what the protocol reads: the fault
/// edges that remain. Each one is a conditional branch whose failure edge
/// calls the fault handler, and through it the reference symbol.
pub struct ObjectCode {
    /// The fault edges present in the object code, in program order.
    pub fault_edges: Vec<FaultSite>,
}

/// The build's one error: a fault path survived into the link stage, and the
/// reference symbol it calls has no definition. Raised at link time, never at
/// runtime.
pub struct UndefinedSymbol {
    /// The linker's own report, carrying the reference symbol's text.
    pub report: String,
}

impl UndefinedSymbol {
    /// The report always shows the chosen symbol text, so the failure reads
    /// as "a reachable fault path was found", not as a stray linker error.
    pub open spec fn wf(self) -> bool {
        contains_text(self.report@, reference_symbol_text())
    }
}

/// How a build ends: a linked binary, or a rejection at the link stage.
pub enum BuildOutcome {
    /// Every reference resolved; the binary exists.
    Linked,
    /// At least one reference to the reference symbol survived.
    Rejected(UndefinedSymbol),
}

impl BuildOutcome {
    /// Whether the build produced a binary.
    pub fn is_linked(&self) -> (b: bool)
        ensures
            b == (*self is Linked),
    {
        match self {
            BuildOutcome::Linked => true,
            BuildOutcome::Rejected(_) => false,
        }
    }
}

/// A fault site's failure edge survives optimization unless dead-code
/// elimination is on and the edge is provably dead.
pub open spec fn survives(site: FaultSite, c: BuildConfig) -> bool {
    !(c.dead_code_elimination && site.provably_dead)
}

/// The fault edges left after the optimizer's pass, in program order.
pub open spec fn surviving_edges(sites: Seq<FaultSite>, c: BuildConfig) -> Seq<FaultSite>
    decreases sites.len(),
{
    if sites.len() == 0 {
        Seq::empty()
    } else {
        let rest = surviving_edges(sites.drop_last(), c);
        if survives(sites.last(), c) {
            rest.push(sites.last())
        } else {
            rest
        }
    }
}

/// One optimizer step: the edges surviving from `sites.push(site)` are the
/// edges surviving from `sites`, with `site` kept exactly when it survives.
pub proof fn lemma_surviving_edges_push(sites: Seq<FaultSite>, site: FaultSite, c: BuildConfig)
    ensures
        surviving_edges(sites.push(site), c) == if survives(site, c) {
            surviving_edges(sites, c).push(site)
        } else {
            surviving_edges(sites, c)
        },
{
    assert(sites.push(site).drop_last() =~= sites);
}

/// No edge survives the optimizer exactly when every site's failure edge is
/// eliminated.
pub proof fn lemma_no_survivors(sites: Seq<FaultSite>, c: BuildConfig)
    ensures
        (surviving_edges(sites, c).len() == 0) <==> (forall|i: int|
            0 <= i < sites.len() ==> !survives(#[trigger] sites[i], c)),
    decreases sites.len(),
{
    if sites.len() == 0 {
    } else {
        let prefix = sites.drop_last();
        lemma_no_survivors(prefix, c);
        if survives(sites.last(), c) {
            assert(survives(sites[sites.len() - 1], c));
        } else {
            assert(surviving_edges(sites, c) == surviving_edges(prefix, c));
            if surviving_edges(prefix, c).len() == 0 {
                assert forall|i: int| 0 <= i < sites.len() implies !survives(
                    #[trigger] sites[i],
                    c,
                ) by {
                    if i < sites.len() - 1 {
                        assert(prefix[i] == sites[i]);
                    }
                }
            } else {
                let i = choose|i: int| 0 <= i < prefix.len() && survives(#[trigger] prefix[i], c);
                assert(sites[i] == prefix[i]);
            }
        }
    }
}

/// Every site's failure edge is deleted by the optimizer under `c`.
pub open spec fn all_fault_paths_eliminated(sites: Seq<FaultSite>, c: BuildConfig) -> bool {
    forall|i: int| 0 <= i < sites.len() ==> !survives(#[trigger] sites[i], c)
}

/// What a finished build guarantees about its outcome: the build links
/// exactly when the optimizer eliminated every fault path, and a rejection
/// carries the undefined-symbol report.
pub open spec fn build_outcome_matches(r: BuildOutcome, sites: Seq<FaultSite>, c: BuildConfig) -> bool {
    &&& (r is Linked <==> all_fault_paths_eliminated(sites, c))
    &&& (r matches BuildOutcome::Rejected(u) ==> u.report@ == undefined_symbol_report())
}

/// Two build outcomes are the same result: both linked, or both rejected
/// with the identical report.
pub open spec fn same_outcome(a: BuildOutcome, b: BuildOutcome) -> bool {
    match (a, b) {
        (BuildOutcome::Linked, BuildOutcome::Linked) => true,
        (BuildOutcome::Rejected(u), BuildOutcome::Rejected(v)) => u.report@ == v.report@,
        _ => false,
    }
}

/// The compiler front end: every operation with possible-fault semantics
/// becomes a conditional branch whose failure edge calls the fault handler.
pub fn compile(p: Program) -> (o: ObjectCode)
    ensures
        o.fault_edges@ == p.sites@,
{
    ObjectCode { fault_edges: p.sites }
}

/// The optimizer's whole-program pass: every fault edge it can prove dead is
/// deleted from the object code; the rest survive unchanged, in order.
pub fn optimize(o: ObjectCode, c: &BuildConfig) -> (r: ObjectCode)
    ensures
        r.fault_edges@ == surviving_edges(o.fault_edges@, *c),
{
    let n: usize = o.fault_edges.len();
    let mut kept: Vec<FaultSite> = Vec::new();
    let mut i: usize = 0;
    while i < n
        invariant
            i <= n,
            n == o.fault_edges@.len(),
            kept@ == surviving_edges(o.fault_edges@.take(i as int), *c),
        decreases n - i,
    {
        let site = o.fault_edges[i];
        proof {
            assert(o.fault_edges@.take(i + 1) =~= o.fault_edges@.take(i as int).push(site));
            lemma_surviving_edges_push(o.fault_edges@.take(i as int), site, *c);
        }
        if !(c.dead_code_elimination && site.provably_dead) {
            kept.push(site);
        }
        i += 1;
    }
    proof {
        assert(o.fault_edges@.take(n as int) =~= o.fault_edges@);
    }
    ObjectCode { fault_edges: kept }
}

/// The link stage. Every surviving fault edge calls the handler, and the
/// handler calls the reference symbol, so the build links exactly when no
/// fault edge survived or the closure, against the mechanism's invariant,
/// defines the reference symbol. A rejection is the linker's own
/// undefined-symbol report.
pub fn link(o: ObjectCode, handler: &FaultHandler, closure: &LinkClosure) -> (r: BuildOutcome)
    requires
        handler.wf(),
    ensures
        r is Linked <==> (o.fault_edges@.len() == 0 || closure.defines(reference_symbol_text())),
        r matches BuildOutcome::Rejected(u) ==> u.report@ == undefined_symbol_report() && u.wf(),
{
    if o.fault_edges.len() == 0 {
        BuildOutcome::Linked
    } else if closure.resolves(handler.target()) {
        BuildOutcome::Linked
    } else {
        proof {
            lemma_report_contains_symbol();
        }
        BuildOutcome::Rejected(UndefinedSymbol { report: undefined_symbol_diagnostic() })
    }
}

/// The whole pipeline, wired as a binary wires it: the one fault handler, a
/// link closure that never defines the reference symbol, and the three stages
/// in order. The outcome is a function of the program and the configuration
/// alone.
pub fn build(p: Program, c: &BuildConfig) -> (r: BuildOutcome)
    ensures
        build_outcome_matches(r, p.sites@, *c),
        r matches BuildOutcome::Rejected(u) ==> u.wf(),
{
    let handler = FaultHandler::new();
    let closure = LinkClosure::new();
    let compiled = compile(p);
    let optimized = optimize(compiled, c);
    proof {
        lemma_no_survivors(p.sites@, *c);
    }
    link(optimized, &handler, &closure)
}

/// A build in flight. The pipeline is linear and non-retryable: each stage
/// has exactly one successor, `Linked` and `Rejected` are terminal, and the
/// only way back to `Source` is a human editing the program.
pub enum Stage {
    /// The program as written.
    Source(Program),
    /// Object code, with every fault edge still present.
    Compiled(ObjectCode),
    /// Object code after the optimizer's pass.
    Optimized(ObjectCode),
    /// Every reference resolved; the binary exists.
    Linked,
    /// An unresolved reference to the reference symbol ended the build.
    Rejected(UndefinedSymbol),
}

impl Stage {
    /// How far along the pipeline this stage lies.
    pub open spec fn rank(self) -> int {
        match self {
            Stage::Source(_) => 0,
            Stage::Compiled(_) => 1,
            Stage::Optimized(_) => 2,
            Stage::Linked => 3,
            Stage::Rejected(_) => 3,
        }
    }

    /// The pipeline ends here; no transition leaves a terminal stage.
    pub open spec fn is_terminal(self) -> bool {
        self is Linked || self is Rejected
    }

    /// One step of the pipeline. Each stage moves to the next; the third step
    /// ends in `Linked` exactly when no fault edge survived, and otherwise in
    /// `Rejected` with the undefined-symbol report.
    pub fn advance(self, c: &BuildConfig) -> (r: Stage)
        requires
            !self.is_terminal(),
        ensures
            r.rank() == self.rank() + 1,
            self matches Stage::Source(p) ==> (r matches Stage::Compiled(o) && o.fault_edges@
                == p.sites@),
            self matches Stage::Compiled(o) ==> (r matches Stage::Optimized(q) && q.fault_edges@
                == surviving_edges(o.fault_edges@, *c)),
            self matches Stage::Optimized(o) ==> ((r is Linked <==> o.fault_edges@.len() == 0) && (
            r matches Stage::Rejected(u) ==> u.report@ == undefined_symbol_report() && u.wf())),
    {
        match self {
            Stage::Source(p) => Stage::Compiled(compile(p)),
            Stage::Compiled(o) => Stage::Optimized(optimize(o, c)),
            Stage::Optimized(o) => {
                let handler = FaultHandler::new();
                let closure = LinkClosure::new();
                match link(o, &handler, &closure) {
                    BuildOutcome::Linked => Stage::Linked,
                    BuildOutcome::Rejected(u) => Stage::Rejected(u),
                }
            },
            Stage::Linked => unreached(),
            Stage::Rejected(_) => unreached(),
        }
    }
}

/// The stage machine run from `Source` to a terminal stage. Three steps
/// always suffice, and the terminal stage obeys the same guarantee as
/// [`build`]: `Linked` exactly when the optimizer eliminated every fault
/// path, `Rejected` with the undefined-symbol report otherwise.
pub fn run_to_completion(p: Program, c: &BuildConfig) -> (s: Stage)
    ensures
        s.is_terminal(),
        s is Linked <==> all_fault_paths_eliminated(p.sites@, *c),
        s matches Stage::Rejected(u) ==> u.report@ == undefined_symbol_report() && u.wf(),
{
    let source = Stage::Source(p);
    let compiled = source.advance(c);
    let optimized = compiled.advance(c);
    proof {
        lemma_no_survivors(p.sites@, *c);
    }
    optimized.advance(c)
}

} // verus!
