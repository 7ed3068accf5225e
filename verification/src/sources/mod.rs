//! Per-source hotkey config parsers.

pub mod accessibility;
pub mod nsuserkeyequivalents;
pub mod plist;
pub mod symbolichotkeys;

use vstd::prelude::*;

use crate::binding::Binding;
use crate::error::{ScanError, ScanWarning};

verus! {

/// Single-source contract: name yourself and produce your current bindings.
///
/// Each implementor stores whatever configuration it needs (file paths,
/// directory roots, etc.) at construction time; `scan` takes no arguments
/// so callers can keep a list of sources and iterate uniformly.
pub trait Source {
    /// Stable identifier for this source, e.g. `"symbolichotkeys"`. Used for
    /// filtering on the command line and tagging errors.
    fn name(&self) -> &'static str;

    /// Walk this source and produce its current set of bindings, plus any
    /// warnings about parts it could not read. `Err` means the source
    /// produced nothing usable; partial trouble goes into
    /// [`SourceScan::warnings`] instead.
    fn scan(&self) -> Result<SourceScan, ScanError>;
}

/// What one source found.
#[derive(Debug, Default, Clone, PartialEq, Eq)]
pub struct SourceScan {
    pub bindings: Vec<Binding>,
    pub warnings: Vec<ScanWarning>,
}

impl SourceScan {
    /// A scan with these bindings and no warnings.
    pub fn from_bindings(bindings: Vec<Binding>) -> (s: SourceScan)
        ensures
            s.bindings@ == bindings@,
            s.warnings@.len() == 0,
    {
        SourceScan { bindings, warnings: Vec::new() }
    }
}

} // verus!
