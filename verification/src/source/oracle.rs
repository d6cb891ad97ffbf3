//! The Oracle Cloud metadata source.
use crate::source::{Source, SourceKind};
use vstd::prelude::*;

verus! {

/// User data from the Oracle Cloud metadata service.
#[derive(Debug, Clone, Copy)]
pub struct OracleSource;

impl Source for OracleSource {
    open spec fn spec_kind(&self) -> SourceKind {
        SourceKind::Oracle
    }

    fn kind(&self) -> (k: SourceKind) {
        SourceKind::Oracle
    }
}

} // verus!
