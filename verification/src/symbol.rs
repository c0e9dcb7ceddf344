//! The reference symbol: an identifier that doubles as a diagnostic message.
//!
//! The symbol's text is chosen so that the toolchain's native
//! "undefined symbol: ..." report reads as a human sentence. Its absence from
//! every link closure is deliberate: an unresolved reference to it is how a
//! surviving fault path is reported.

use vstd::prelude::*;

verus! {

/// The text of the reference symbol. It is fixed once and never defined as a
/// real symbol, so a linker that meets it can only print it.
pub open spec fn reference_symbol_text() -> Seq<char> {
    "\nerror(panic-never): your program contains at least one panicking branch"@
}

/// The reference symbol as a value, for the pieces of the pipeline that carry
/// symbol names around.
pub fn reference_symbol() -> (s: &'static str)
    ensures
        s@ == reference_symbol_text(),
{
    "\nerror(panic-never): your program contains at least one panicking branch"
}

/// The text the link stage prints when the reference symbol survives: its own
/// undefined-symbol report, around the symbol's name.
pub open spec fn undefined_symbol_report() -> Seq<char> {
    "undefined symbol: "@ + reference_symbol_text()
}

/// Builds the link stage's report as a value.
pub fn undefined_symbol_diagnostic() -> (m: String)
    ensures
        m@ == undefined_symbol_report(),
{
    let prefix = String::from_str("undefined symbol: ");
    prefix.concat(reference_symbol())
}

/// `needle` occurs contiguously somewhere in `hay`.
pub open spec fn contains_text(hay: Seq<char>, needle: Seq<char>) -> bool {
    exists|i: int|
        0 <= i && i + needle.len() <= hay.len() && #[trigger] hay.subrange(i, i + needle.len())
            == needle
}

/// A text contains its own suffix; in particular the undefined-symbol report
/// contains the reference symbol's text.
pub proof fn lemma_concat_contains_suffix(prefix: Seq<char>, suffix: Seq<char>)
    ensures
        contains_text(prefix + suffix, suffix),
{
    let joined = prefix + suffix;
    let start = prefix.len() as int;
    assert(joined.subrange(start, start + suffix.len()) =~= suffix);
}

/// The diagnostic the link stage prints carries the reference symbol's text.
pub proof fn lemma_report_contains_symbol()
    ensures
        contains_text(undefined_symbol_report(), reference_symbol_text()),
{
    lemma_concat_contains_suffix("undefined symbol: "@, reference_symbol_text());
}

} // verus!
