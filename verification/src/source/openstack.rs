//! The OpenStack metadata source.
use crate::source::{Source, SourceKind};
use vstd::prelude::*;

verus! {

/// User data from the OpenStack metadata service.
#[derive(Debug, Clone, Copy)]
pub struct OpenstackSource;

impl Source for OpenstackSource {
    open spec fn spec_kind(&self) -> SourceKind {
        SourceKind::Openstack
    }

    fn kind(&self) -> (k: SourceKind) {
        SourceKind::Openstack
    }
}

} // verus!
