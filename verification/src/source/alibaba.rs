//! The Alibaba Cloud ECS metadata source.
use crate::source::{Source, SourceKind};
use vstd::prelude::*;

verus! {

/// User data from the Alibaba Cloud ECS metadata service.
#[derive(Debug, Clone, Copy)]
pub struct AlibabaSource;

impl Source for AlibabaSource {
    open spec fn spec_kind(&self) -> SourceKind {
        SourceKind::Alibaba
    }

    fn kind(&self) -> (k: SourceKind) {
        SourceKind::Alibaba
    }
}

} // verus!
