//! A model of a link-time guarantee: a program is free of panicking branches.
//!
//! The mechanism under study is a diverging fault handler whose only act is to
//! call a symbol that is declared but never defined. The toolchain's optimizer
//! removes every call to the fault handler whose failure edge it can prove
//! unreachable; any call that survives keeps a reference to the undefined
//! symbol alive, and the link stage then fails with an undefined-symbol error
//! whose text is the symbol's own name. A successful link is therefore a proof
//! that no reachable fault path survived optimization.
//!
//! This crate states that protocol precisely and proves its properties:
//! soundness (a linked program never reaches the fault handler), conservatism
//! (an uneliminated fault path always fails the build, with the chosen
//! diagnostic text), the behaviour of builds without dead-code elimination,
//! and determinism of the whole pipeline.
//!
//! - [`symbol`] holds the reference symbol, the diagnostic text, and what it
//!   means for one text to contain another.
//! - [`program`] models a program as its fault sites, together with the build
//!   configuration.
//! - [`pipeline`] models the build pipeline: compile, optimize, link, and the
//!   linear stage machine.
//! - [`laws`] proves the pipeline's guarantees.

pub mod laws;
pub mod pipeline;
pub mod program;
pub mod symbol;
