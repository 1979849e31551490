//! The window that owns an element's document: the scripting context in
//! which handlers of the element are compiled, and the holder of the `load`
//! handler that body and frameset elements share.

use crate::js::{EventHandlerNonNull, JSContext};
use vstd::prelude::*;

verus! {

/// A window.
pub struct Window {
    cx: JSContext,
    url: String,
    onload: Option<EventHandlerNonNull>,
}

/// What a contract sees of a window.
pub struct WindowView {
    /// The scripting execution context.
    pub cx: JSContext,
    /// The base location, which diagnostics of later compilations refer to.
    pub url: Seq<char>,
    /// The window's own `load` handler.
    pub onload: Option<EventHandlerNonNull>,
}

impl View for Window {
    type V = WindowView;

    closed spec fn view(&self) -> WindowView {
        WindowView { cx: self.cx, url: self.url@, onload: self.onload }
    }
}

impl Window {
    /// A window without a `load` handler.
    pub fn new(cx: JSContext, url: String) -> (window: Window)
        ensures
            window@ == (WindowView { cx, url: url@, onload: None }),
    {
        Window { cx, url, onload: None }
    }

    /// The scripting execution context.
    pub fn get_cx(&self) -> (cx: JSContext)
        ensures
            cx == self@.cx,
    {
        self.cx
    }

    /// The base location.
    pub fn get_url(&self) -> (url: String)
        ensures
            url@ == self@.url,
    {
        self.url.clone()
    }

    /// The window's `load` handler.
    pub fn GetOnload(&self) -> (listener: Option<EventHandlerNonNull>)
        ensures
            listener == self@.onload,
    {
        self.onload
    }

    /// Installs the window's `load` handler, or removes it if none is given.
    pub fn SetOnload(&mut self, listener: Option<EventHandlerNonNull>)
        ensures
            final(self)@ == (WindowView { onload: listener, ..old(self)@ }),
    {
        self.onload = listener;
    }
}

} // verus!
