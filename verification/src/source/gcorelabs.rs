//! The G-Core Labs metadata source.
use crate::source::{Source, SourceKind};
use vstd::prelude::*;

verus! {

/// User data from the G-Core Labs metadata service.
#[derive(Debug, Clone, Copy)]
pub struct GcorelabsSource;

impl Source for GcorelabsSource {
    open spec fn spec_kind(&self) -> SourceKind {
        SourceKind::Gcorelabs
    }

    fn kind(&self) -> (k: SourceKind) {
        SourceKind::Gcorelabs
    }
}

} // verus!
