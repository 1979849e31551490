//! An element as the mutation logic sees it: its category, its name, its
//! attributes, its event-handler slots and its disabled state.

use crate::assoc;
use crate::attr::{Attr, AttributeStore, QualName};
use crate::eventtarget::{
    compiled_handler, with_listener, EventHandler, EventHandlerView, EventTarget,
    UncompiledHandlerView,
};
use crate::js::{EventHandlerNonNull, JSContext, ObjectId};
use crate::types::{ElementTypeId, EventTargetTypeId, NodeTypeId};
use vstd::prelude::*;

verus! {

/// An element of a document.
pub struct Element {
    eventtarget: EventTarget,
    type_id: ElementTypeId,
    local_name: String,
    namespace: String,
    prefix: Option<String>,
    attrs: AttributeStore,
    disabled: bool,
}

/// What a contract sees of an element.
pub struct ElementView {
    /// The element's category, which never changes.
    pub type_id: ElementTypeId,
    /// The identity of the object that reflects the element.
    pub reflector: ObjectId,
    pub local_name: Seq<char>,
    pub namespace: Seq<char>,
    pub prefix: Option<Seq<char>>,
    /// The attributes in their order, each with its qualified name.
    pub attrs: Seq<(QualName, Seq<char>)>,
    /// The occupied event-handler slots, each with its event type.
    pub handlers: Seq<(Seq<char>, EventHandlerView)>,
    /// Whether the element is in the disabled state.
    pub disabled: bool,
}

impl ElementView {
    /// The element with other attributes.
    pub open spec fn with_attrs(self, attrs: Seq<(QualName, Seq<char>)>) -> ElementView {
        ElementView { attrs, ..self }
    }

    /// The element with other event-handler slots.
    pub open spec fn with_handlers(
        self,
        handlers: Seq<(Seq<char>, EventHandlerView)>,
    ) -> ElementView {
        ElementView { handlers, ..self }
    }

    /// The element's tag as an event target.
    pub open spec fn event_target_type_id(self) -> EventTargetTypeId {
        EventTargetTypeId::Node(NodeTypeId::Element(self.type_id))
    }

    /// The attributes and the event-handler slots have unique keys, as those
    /// of every element have.
    pub open spec fn well_formed(self) -> bool {
        assoc::unique_keys(self.attrs) && assoc::unique_keys(self.handlers)
    }
}

/// What a contract sees of a string that may be absent.
pub open spec fn option_string_view(s: Option<String>) -> Option<Seq<char>> {
    match s {
        Some(s) => Some(s@),
        None => None,
    }
}

impl View for Element {
    type V = ElementView;

    closed spec fn view(&self) -> ElementView {
        ElementView {
            type_id: self.type_id,
            reflector: self.eventtarget@.reflector,
            local_name: self.local_name@,
            namespace: self.namespace@,
            prefix: option_string_view(self.prefix),
            attrs: self.attrs@,
            handlers: self.eventtarget@.handlers,
            disabled: self.disabled,
        }
    }
}

impl Element {
    /// An element of the given category and name, reflected by `reflector`,
    /// without attributes or handlers, and not disabled.
    pub fn new_inherited(
        type_id: ElementTypeId,
        local_name: String,
        namespace: String,
        prefix: Option<String>,
        reflector: ObjectId,
    ) -> (element: Element)
        ensures
            element@ == (ElementView {
                type_id,
                reflector,
                local_name: local_name@,
                namespace: namespace@,
                prefix: option_string_view(prefix),
                attrs: Seq::empty(),
                handlers: Seq::empty(),
                disabled: false,
            }),
            element@.well_formed(),
    {
        let element = Element {
            eventtarget: EventTarget::new_inherited(reflector),
            type_id,
            local_name,
            namespace,
            prefix,
            attrs: AttributeStore::new(),
            disabled: false,
        };
        element.well_formed();
        element
    }

    /// Every element is well formed: no two of its attributes have the same
    /// qualified name, and no event type has two handler slots. A call makes
    /// the fact known where it is needed; nothing happens at run time.
    pub(crate) fn well_formed(&self)
        ensures
            self@.well_formed(),
    {
        proof {
            use_type_invariant(&self.attrs);
            use_type_invariant(&self.eventtarget);
        }
    }

    pub fn type_id(&self) -> (type_id: ElementTypeId)
        ensures
            type_id == self@.type_id,
    {
        self.type_id
    }

    /// The element's tag as an event target.
    pub fn event_target_type_id(&self) -> (type_id: EventTargetTypeId)
        ensures
            type_id == self@.event_target_type_id(),
    {
        EventTargetTypeId::Node(NodeTypeId::Element(self.type_id))
    }

    /// The identity of the object that reflects the element.
    pub fn reflector(&self) -> (id: ObjectId)
        ensures
            id == self@.reflector,
    {
        self.eventtarget.reflector()
    }

    pub fn local_name(&self) -> (name: &str)
        ensures
            name@ == self@.local_name,
    {
        self.local_name.as_str()
    }

    pub fn namespace(&self) -> (namespace: &str)
        ensures
            namespace@ == self@.namespace,
    {
        self.namespace.as_str()
    }

    pub fn prefix(&self) -> (prefix: Option<&str>)
        ensures
            match prefix {
                Some(p) => self@.prefix == Some(p@),
                None => self@.prefix is None,
            },
    {
        match &self.prefix {
            Some(p) => Some(p.as_str()),
            None => None,
        }
    }

    /// Whether the element is in the disabled state.
    pub fn get_disabled_state(&self) -> (disabled: bool)
        ensures
            disabled == self@.disabled,
    {
        self.disabled
    }

    /// Puts the element into the disabled state, or takes it out of it.
    pub fn set_disabled_state(&mut self, disabled: bool)
        ensures
            final(self)@ == (ElementView { disabled, ..old(self)@ }),
            final(self)@.well_formed(),
    {
        self.disabled = disabled;
        self.well_formed();
    }

    /// The number of attributes.
    pub fn attribute_count(&self) -> (n: usize)
        ensures
            n == self@.attrs.len(),
    {
        self.attrs.len()
    }

    /// The attribute at position `index`, if the element has that many.
    pub fn attribute_item(&self, index: usize) -> (attr: Option<&Attr>)
        ensures
            match attr {
                Some(a) => index < self@.attrs.len() && a@.entry() == self@.attrs[index as int],
                None => index >= self@.attrs.len(),
            },
    {
        self.attrs.item(index)
    }

    /// The value of the attribute with the given name, if the element has one.
    pub fn get_attribute(&self, namespace: &str, local_name: &str) -> (value: Option<String>)
        ensures
            option_string_view(value) == assoc::get(self@.attrs, (namespace@, local_name@)),
    {
        self.attrs.get(namespace, local_name)
    }

    /// Stores the attribute, without telling any mutation handler.
    pub(crate) fn store_attribute(&mut self, attr: Attr)
        ensures
            final(self)@ == old(self)@.with_attrs(
                assoc::put(old(self)@.attrs, attr@.name(), attr@.value),
            ),
            final(self)@.well_formed(),
    {
        self.attrs.set(attr);
        self.well_formed();
    }

    /// Removes the attribute with the given name, if the element has one.
    pub fn remove_attribute(&mut self, namespace: &str, local_name: &str)
        ensures
            final(self)@ == old(self)@.with_attrs(
                assoc::remove(old(self)@.attrs, (namespace@, local_name@)),
            ),
            final(self)@.well_formed(),
    {
        self.attrs.remove(namespace, local_name);
        self.well_formed();
    }

    /// The number of occupied event-handler slots.
    pub fn handler_count(&self) -> (n: usize)
        ensures
            n == self@.handlers.len(),
    {
        self.eventtarget.handler_count()
    }

    /// What the slot for events of type `ty` holds.
    pub fn event_handler(&self, ty: &str) -> (slot: Option<&EventHandler>)
        ensures
            match slot {
                Some(h) => assoc::get(self@.handlers, ty@) == Some(h@),
                None => assoc::get(self@.handlers, ty@) is None,
            },
    {
        self.eventtarget.event_handler(ty)
    }

    /// The compiled handler for events of type `ty`.
    pub fn get_event_handler_common(&self, ty: &str) -> (listener: Option<EventHandlerNonNull>)
        ensures
            listener == compiled_handler(assoc::get(self@.handlers, ty@)),
    {
        self.eventtarget.get_event_handler_common(ty)
    }

    /// Installs `listener` as the compiled handler for events of type `ty`, or
    /// clears the slot if no listener is given.
    pub fn set_event_handler_common(&mut self, ty: &str, listener: Option<EventHandlerNonNull>)
        ensures
            final(self)@ == old(self)@.with_handlers(
                with_listener(old(self)@.handlers, ty@, listener),
            ),
            final(self)@.well_formed(),
    {
        self.eventtarget.set_event_handler_common(ty, listener);
        self.well_formed();
    }

    /// Registers `source` as the handler source for events of type `ty`, in
    /// place of whatever was registered for `ty`.
    pub fn set_event_handler_uncompiled(
        &mut self,
        cx: JSContext,
        url: String,
        scope: ObjectId,
        ty: &str,
        source: String,
    )
        ensures
            final(self)@ == old(self)@.with_handlers(
                assoc::put(
                    old(self)@.handlers,
                    ty@,
                    EventHandlerView::Uncompiled(
                        UncompiledHandlerView { cx, url: url@, scope, source: source@ },
                    ),
                ),
            ),
            final(self)@.well_formed(),
    {
        self.eventtarget.set_event_handler_uncompiled(cx, url, scope, ty, source);
        self.well_formed();
    }
}

} // verus!
