//! The dataset object of an element: the view of its custom attributes that
//! scripts see.

use crate::js::ObjectId;
use vstd::prelude::*;

verus! {

/// The dataset object of the element `element`.
#[derive(Clone, Copy, Debug, PartialEq, Eq, Structural)]
pub struct DOMStringMap {
    pub element: ObjectId,
}

impl DOMStringMap {
    pub fn new(element: ObjectId) -> (map: DOMStringMap)
        ensures
            map == (DOMStringMap { element }),
    {
        DOMStringMap { element }
    }
}

} // verus!
