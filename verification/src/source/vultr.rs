//! The Vultr metadata source.
use crate::source::{Source, SourceKind};
use vstd::prelude::*;

verus! {

/// User data from the Vultr metadata service.
#[derive(Debug, Clone, Copy)]
pub struct VultrSource;

impl Source for VultrSource {
    open spec fn spec_kind(&self) -> SourceKind {
        SourceKind::Vultr
    }

    fn kind(&self) -> (k: SourceKind) {
        SourceKind::Vultr
    }
}

} // verus!
