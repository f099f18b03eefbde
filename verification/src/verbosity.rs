//! Reporting levels.

use vstd::prelude::*;

verus! {

/// How much is reported while an extrinsic is prepared and sent.
///
/// The level is carried by the options for the reporting code; no decision of
/// this library depends on it.
#[derive(Clone, Copy, Debug, PartialEq, Eq)]
pub enum Verbosity {
    /// Report nothing.
    Quiet,
    /// The standard level, which options have until one is set.
    Default,
    /// Report everything.
    Verbose,
}

} // verus!
