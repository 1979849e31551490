//! The style-declaration object of an element.

use crate::js::ObjectId;
use vstd::prelude::*;

verus! {

/// Whether a style declaration may be changed through the object.
#[derive(Clone, Copy, Debug, PartialEq, Eq, Structural)]
pub enum CSSModificationAccess {
    ReadWrite,
    Readonly,
}

/// The style-declaration object of the element `owner`.
#[derive(Clone, Copy, Debug, PartialEq, Eq, Structural)]
pub struct CSSStyleDeclaration {
    pub owner: ObjectId,
    pub readonly: bool,
}

impl CSSStyleDeclaration {
    pub fn new(owner: ObjectId, modification_access: CSSModificationAccess) -> (decl:
        CSSStyleDeclaration)
        ensures
            decl == (CSSStyleDeclaration {
                owner,
                readonly: modification_access == CSSModificationAccess::Readonly,
            }),
    {
        let readonly = match modification_access {
            CSSModificationAccess::ReadWrite => false,
            CSSModificationAccess::Readonly => true,
        };
        CSSStyleDeclaration { owner, readonly }
    }
}

} // verus!
