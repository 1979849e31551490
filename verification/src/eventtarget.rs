//! Event targets and their inline event-handler slots. A slot is keyed by the
//! event type and holds either source text that is still to be compiled or a
//! compiled handler.

use crate::assoc;
use crate::js::{EventHandlerNonNull, JSContext, ObjectId};
use vstd::prelude::*;
use vstd::string::*;

verus! {

/// Handler source that waits for its compilation, with what the compiler will
/// need: the execution context, the base location for its diagnostics, and the
/// reflected object that the handler belongs to.
#[derive(Debug, PartialEq, Eq)]
pub struct UncompiledHandler {
    pub cx: JSContext,
    pub url: String,
    pub scope: ObjectId,
    pub source: String,
}

/// What a contract sees of handler source.
pub struct UncompiledHandlerView {
    pub cx: JSContext,
    pub url: Seq<char>,
    pub scope: ObjectId,
    pub source: Seq<char>,
}

impl View for UncompiledHandler {
    type V = UncompiledHandlerView;

    open spec fn view(&self) -> UncompiledHandlerView {
        UncompiledHandlerView {
            cx: self.cx,
            url: self.url@,
            scope: self.scope,
            source: self.source@,
        }
    }
}

/// What an event-handler slot holds.
#[derive(Debug, PartialEq, Eq)]
pub enum EventHandler {
    Uncompiled(UncompiledHandler),
    Compiled(EventHandlerNonNull),
}

/// What a contract sees of a slot's content.
pub enum EventHandlerView {
    Uncompiled(UncompiledHandlerView),
    Compiled(EventHandlerNonNull),
}

impl View for EventHandler {
    type V = EventHandlerView;

    open spec fn view(&self) -> EventHandlerView {
        match self {
            EventHandler::Uncompiled(u) => EventHandlerView::Uncompiled(u@),
            EventHandler::Compiled(h) => EventHandlerView::Compiled(*h),
        }
    }
}

/// The compiled handler of a slot: none where the slot is absent or holds
/// source that is not compiled yet.
pub open spec fn compiled_handler(slot: Option<EventHandlerView>) -> Option<EventHandlerNonNull> {
    match slot {
        Some(EventHandlerView::Compiled(h)) => Some(h),
        _ => None,
    }
}

/// The slots after a compiled handler was installed for `ty`, or, with no
/// handler given, after the slot for `ty` was cleared.
pub open spec fn with_listener(
    slots: Seq<(Seq<char>, EventHandlerView)>,
    ty: Seq<char>,
    listener: Option<EventHandlerNonNull>,
) -> Seq<(Seq<char>, EventHandlerView)> {
    match listener {
        Some(h) => assoc::put(slots, ty, EventHandlerView::Compiled(h)),
        None => assoc::remove(slots, ty),
    }
}

struct HandlerEntry {
    event_type: String,
    handler: EventHandler,
}

impl HandlerEntry {
    spec fn entry(self) -> (Seq<char>, EventHandlerView) {
        (self.event_type@, self.handler@)
    }
}

/// An object that events are dispatched to, with its inline event-handler
/// slots. No event type has more than one slot.
pub struct EventTarget {
    reflector: ObjectId,
    handlers: Vec<HandlerEntry>,
}

/// What a contract sees of an event target.
pub struct EventTargetView {
    /// The identity of the object that reflects the target.
    pub reflector: ObjectId,
    /// The occupied slots, each with its event type.
    pub handlers: Seq<(Seq<char>, EventHandlerView)>,
}

impl View for EventTarget {
    type V = EventTargetView;

    closed spec fn view(&self) -> EventTargetView {
        EventTargetView {
            reflector: self.reflector,
            handlers: self.handlers@.map_values(|e: HandlerEntry| e.entry()),
        }
    }
}

impl EventTarget {
    /// No event type has two slots.
    #[verifier::type_invariant]
    pub open spec fn unique_event_types(&self) -> bool {
        assoc::unique_keys(self@.handlers)
    }

    /// An event target without handlers.
    pub fn new_inherited(reflector: ObjectId) -> (target: EventTarget)
        ensures
            target@ == (EventTargetView { reflector, handlers: Seq::empty() }),
    {
        let target = EventTarget { reflector, handlers: Vec::new() };
        assert(target@.handlers =~= Seq::empty());
        target
    }

    /// The identity of the object that reflects the target.
    pub fn reflector(&self) -> (id: ObjectId)
        ensures
            id == self@.reflector,
    {
        self.reflector
    }

    /// The number of occupied slots.
    pub fn handler_count(&self) -> (n: usize)
        ensures
            n == self@.handlers.len(),
    {
        self.handlers.len()
    }

    fn take_handlers(&mut self) -> (handlers: Vec<HandlerEntry>)
        ensures
            handlers == old(self).handlers,
            final(self).handlers@.len() == 0,
            final(self).reflector == old(self).reflector,
    {
        let mut handlers: Vec<HandlerEntry> = Vec::new();
        std::mem::swap(&mut self.handlers, &mut handlers);
        handlers
    }

    /// The index of the slot for `ty`, or the number of slots if there is none.
    fn find(&self, ty: &String) -> (i: usize)
        ensures
            i == assoc::position(self@.handlers, ty@),
            i <= self.handlers.len(),
    {
        let mut i: usize = 0;
        while i < self.handlers.len()
            invariant
                i <= self.handlers.len(),
                forall|j: int| 0 <= j < i ==> (#[trigger] self@.handlers[j]).0 != ty@,
            decreases self.handlers.len() - i,
        {
            if self.handlers[i].event_type == *ty {
                proof {
                    assoc::lemma_position_is(self@.handlers, ty@, i as int);
                }
                return i;
            }
            i += 1;
        }
        proof {
            assoc::lemma_position_absent(self@.handlers, ty@);
        }
        i
    }

    /// Puts `handler` into the slot for `ty`, in place of what the slot held.
    fn set_handler(&mut self, ty: String, handler: EventHandler)
        ensures
            final(self)@ == (EventTargetView {
                handlers: assoc::put(old(self)@.handlers, ty@, handler@),
                ..old(self)@
            }),
    {
        proof {
            use_type_invariant(&*self);
            assoc::lemma_put_unique(self@.handlers, ty@, handler@);
        }
        let i = self.find(&ty);
        let entry = HandlerEntry { event_type: ty, handler };
        let mut handlers = self.take_handlers();
        if i < handlers.len() {
            handlers[i] = entry;
        } else {
            handlers.push(entry);
        }
        assert(handlers@.map_values(|e: HandlerEntry| e.entry()) =~= assoc::put(
            old(self)@.handlers,
            ty@,
            handler@,
        ));
        self.handlers = handlers;
    }

    /// Empties the slot for `ty`.
    fn clear_handler(&mut self, ty: String)
        ensures
            final(self)@ == (EventTargetView {
                handlers: assoc::remove(old(self)@.handlers, ty@),
                ..old(self)@
            }),
    {
        proof {
            use_type_invariant(&*self);
            assoc::lemma_remove_unique(self@.handlers, ty@);
        }
        let i = self.find(&ty);
        let mut handlers = self.take_handlers();
        if i < handlers.len() {
            handlers.remove(i);
        }
        assert(handlers@.map_values(|e: HandlerEntry| e.entry()) =~= assoc::remove(
            old(self)@.handlers,
            ty@,
        ));
        self.handlers = handlers;
    }

    /// Registers `source` as the handler source for events of type `ty`, to be
    /// compiled when an event is first dispatched. It replaces whatever was
    /// registered for `ty`, source or compiled handler.
    pub fn set_event_handler_uncompiled(
        &mut self,
        cx: JSContext,
        url: String,
        scope: ObjectId,
        ty: &str,
        source: String,
    )
        ensures
            final(self)@ == (EventTargetView {
                handlers: assoc::put(
                    old(self)@.handlers,
                    ty@,
                    EventHandlerView::Uncompiled(
                        UncompiledHandlerView { cx, url: url@, scope, source: source@ },
                    ),
                ),
                ..old(self)@
            }),
    {
        let handler = EventHandler::Uncompiled(UncompiledHandler { cx, url, scope, source });
        self.set_handler(String::from_str(ty), handler);
    }

    /// Installs `listener` as the compiled handler for events of type `ty`, or
    /// clears the slot if no listener is given.
    pub fn set_event_handler_common(&mut self, ty: &str, listener: Option<EventHandlerNonNull>)
        ensures
            final(self)@ == (EventTargetView {
                handlers: with_listener(old(self)@.handlers, ty@, listener),
                ..old(self)@
            }),
    {
        match listener {
            Some(h) => self.set_handler(String::from_str(ty), EventHandler::Compiled(h)),
            None => self.clear_handler(String::from_str(ty)),
        }
    }

    /// The compiled handler for events of type `ty`.
    pub fn get_event_handler_common(&self, ty: &str) -> (listener: Option<EventHandlerNonNull>)
        ensures
            listener == compiled_handler(assoc::get(self@.handlers, ty@)),
    {
        let key = String::from_str(ty);
        let i = self.find(&key);
        if i < self.handlers.len() {
            match &self.handlers[i].handler {
                EventHandler::Compiled(h) => Some(*h),
                EventHandler::Uncompiled(_) => None,
            }
        } else {
            None
        }
    }

    /// What the slot for events of type `ty` holds.
    pub fn event_handler(&self, ty: &str) -> (slot: Option<&EventHandler>)
        ensures
            match slot {
                Some(h) => assoc::get(self@.handlers, ty@) == Some(h@),
                None => assoc::get(self@.handlers, ty@) is None,
            },
    {
        let key = String::from_str(ty);
        let i = self.find(&key);
        if i < self.handlers.len() {
            Some(&self.handlers[i].handler)
        } else {
            None
        }
    }
}

} // verus!
