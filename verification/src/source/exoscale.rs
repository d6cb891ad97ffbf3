//! The Exoscale metadata source.
use crate::source::{Source, SourceKind};
use vstd::prelude::*;

verus! {

/// User data from the Exoscale metadata service.
#[derive(Debug, Clone, Copy)]
pub struct ExoscaleSource;

impl Source for ExoscaleSource {
    open spec fn spec_kind(&self) -> SourceKind {
        SourceKind::Exoscale
    }

    fn kind(&self) -> (k: SourceKind) {
        SourceKind::Exoscale
    }
}

} // verus!
