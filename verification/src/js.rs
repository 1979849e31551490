//! Handles to what lives in the scripting engine. The library carries them
//! through and compares them; it never looks inside.

use vstd::prelude::*;

verus! {

/// An opaque handle to a scripting execution context.
#[derive(Clone, Copy, Debug, PartialEq, Eq, Structural)]
pub struct JSContext(pub u64);

/// The identity of a reflected object.
#[derive(Clone, Copy, Debug, PartialEq, Eq, Structural)]
pub struct ObjectId(pub u64);

/// A compiled event handler: a callable object of the scripting engine.
#[derive(Clone, Copy, Debug, PartialEq, Eq, Structural)]
pub struct EventHandlerNonNull {
    pub callback: ObjectId,
}

} // verus!
