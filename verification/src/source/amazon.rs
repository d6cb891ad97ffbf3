//! The Amazon EC2 metadata source.
use crate::source::{Source, SourceKind};
use vstd::prelude::*;

verus! {

/// User data from the Amazon EC2 metadata service.
#[derive(Debug, Clone, Copy)]
pub struct AmazonSource;

impl Source for AmazonSource {
    open spec fn spec_kind(&self) -> SourceKind {
        SourceKind::Amazon
    }

    fn kind(&self) -> (k: SourceKind) {
        SourceKind::Amazon
    }
}

} // verus!
