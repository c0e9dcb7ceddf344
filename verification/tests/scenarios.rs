use panic_never::pipeline::{build, BuildOutcome};
use panic_never::program::{BuildConfig, FaultSite, Program};
use panic_never::symbol::reference_symbol;

fn site(taken_in_some_run: bool, provably_dead: bool) -> FaultSite {
    FaultSite { taken_in_some_run, provably_dead }
}

/// A program with no fault-prone operations of its own: its one fault site
/// comes from the surrounding startup machinery, and the optimizer proves it
/// dead trivially.
fn clean_program() -> Program {
    Program { sites: vec![site(false, true)] }
}

#[test]
fn scenario_no_fault_prone_operations_links() {
    let r = build(clean_program(), &BuildConfig::release());
    assert!(r.is_linked());
}

#[test]
fn scenario_provable_index_links() {
    // An array access whose index is statically in range: the site exists,
    // and the optimizer eliminates its failure edge.
    let p = Program { sites: vec![site(false, true), site(false, true)] };
    let r = build(p, &BuildConfig::release());
    assert!(r.is_linked());
}

#[test]
fn scenario_unprovable_index_fails() {
    // An index derived from unconstrained external input: no execution may
    // ever take the failure edge, but the optimizer cannot prove that.
    let p = Program { sites: vec![site(false, true), site(false, false)] };
    match build(p, &BuildConfig::release()) {
        BuildOutcome::Linked => panic!("a surviving fault path must fail the build"),
        BuildOutcome::Rejected(u) => {
            assert!(u.report.contains(reference_symbol()));
        }
    }
}

#[test]
fn scenario_unoptimized_build_fails() {
    // The clean program again, but without dead-code elimination: its one
    // fault site survives, so even this program fails to build.
    match build(clean_program(), &BuildConfig::debug()) {
        BuildOutcome::Linked => panic!("without dead-code elimination the site must survive"),
        BuildOutcome::Rejected(u) => {
            assert!(u.report.contains(reference_symbol()));
        }
    }
}

#[test]
fn soundness_on_a_linked_program() {
    // A program that links under dead-code elimination has no fault path any
    // execution takes: every site of this one is provably dead, hence never
    // taken.
    let sites = vec![site(false, true), site(false, true), site(false, true)];
    let p = Program { sites: sites.clone() };
    let r = build(p, &BuildConfig::release());
    assert!(r.is_linked());
    assert!(sites.iter().all(|s| !s.taken_in_some_run));
}

#[test]
fn conservatism_under_every_configuration() {
    // One site the optimizer cannot prove dead fails the build with the
    // chosen symbol in the report, optimized or not.
    for config in [BuildConfig::release(), BuildConfig::debug()] {
        let p = Program { sites: vec![site(false, false)] };
        match build(p, &config) {
            BuildOutcome::Linked => panic!("an unprovable fault path must fail the build"),
            BuildOutcome::Rejected(u) => assert!(u.report.contains(reference_symbol())),
        }
    }
}

#[test]
fn build_is_deterministic_when_rejecting() {
    let make = || Program { sites: vec![site(true, false)] };
    let first = build(make(), &BuildConfig::release());
    let second = build(make(), &BuildConfig::release());
    match (first, second) {
        (BuildOutcome::Rejected(a), BuildOutcome::Rejected(b)) => {
            assert_eq!(a.report, b.report);
        }
        _ => panic!("both builds must be rejected"),
    }
}

#[test]
fn build_is_deterministic_when_linking() {
    let first = build(clean_program(), &BuildConfig::release());
    let second = build(clean_program(), &BuildConfig::release());
    assert!(first.is_linked());
    assert!(second.is_linked());
}

#[test]
fn trivial_program_links_even_without_optimization() {
    // A program with no fault sites at all has nothing to survive: it links
    // under any configuration.
    assert!(build(Program::new(), &BuildConfig::debug()).is_linked());
    assert!(build(Program::new(), &BuildConfig::release()).is_linked());
}

#[test]
fn rejection_report_text_is_exact() {
    let p = Program { sites: vec![site(false, false)] };
    match build(p, &BuildConfig::release()) {
        BuildOutcome::Linked => panic!("the build must be rejected"),
        BuildOutcome::Rejected(u) => {
            assert_eq!(
                u.report,
                "undefined symbol: \nerror(panic-never): your program contains at least one \
                 panicking branch"
            );
        }
    }
}
