//! The Google Compute Engine metadata source.
use crate::source::{Source, SourceKind};
use vstd::prelude::*;

verus! {

/// User data from the Google Compute Engine metadata service.
#[derive(Debug, Clone, Copy)]
pub struct GoogleSource;

impl Source for GoogleSource {
    open spec fn spec_kind(&self) -> SourceKind {
        SourceKind::Google
    }

    fn kind(&self) -> (k: SourceKind) {
        SourceKind::Google
    }
}

} // verus!
