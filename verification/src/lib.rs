//! Attribute-mutation dispatch, custom (`data-*`) attribute naming and inline
//! event-handler binding for HTML elements.
//!
//! An element is modelled by plain values: its type tag, its attributes, its
//! event-handler slots and its lazily created auxiliary objects. Every
//! operation states in its contract how the element's view changes.

#![allow(non_snake_case)]

pub mod error;
pub mod types;
pub mod names;
pub mod assoc;
pub mod attr;
pub mod js;
pub mod eventtarget;
pub mod window;
pub mod lazy;
pub mod cssstyledeclaration;
pub mod domstringmap;
pub mod element;
pub mod htmlelement;
pub mod laws;
pub mod custom_attr;
