//! The pure decisions behind the command line.

use vstd::prelude::*;

verus! {

/// The filter directive for a `-v` count, as a value.
pub open spec fn directive_for(verbose: u8) -> Seq<char> {
    if verbose == 0 {
        "frascii=info,frascii_tui=info"@
    } else if verbose == 1 {
        "frascii=debug,frascii_tui=debug"@
    } else {
        "frascii=trace,frascii_tui=trace,frascii_core=trace"@
    }
}

/// The log filter directive for a `-v` count.
///
/// Own crates only: a blanket level pulls in every dependency's internals, and
/// at trace level a terminal backend logs per keystroke.
pub fn log_directive(verbose: u8) -> (directive: &'static str)
    ensures
        directive@ == directive_for(verbose),
{
    if verbose == 0 {
        "frascii=info,frascii_tui=info"
    } else if verbose == 1 {
        "frascii=debug,frascii_tui=debug"
    } else {
        "frascii=trace,frascii_tui=trace,frascii_core=trace"
    }
}

/// Every verbosity past two gives the same directive as two.
pub proof fn lemma_verbosity_saturates(verbose: u8)
    requires
        verbose >= 2,
    ensures
        directive_for(verbose) == directive_for(2),
{
}

} // verus!
