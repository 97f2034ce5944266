//! The elements that an address can name.
use vstd::prelude::*;
use crate::properties::Element;

verus! {

/// The element for properties that apply to the master element or to the
/// whole scope.
#[derive(Debug, Clone, Copy)]
pub struct Master;

impl Element for Master {
    open spec fn code() -> u32 {
        0
    }

    fn element() -> (r: u32) {
        0
    }
}

} // verus!
