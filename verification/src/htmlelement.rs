//! HTML elements: the reaction to a changed attribute, which runs along the
//! handler chain of the element's category and binds inline event handlers;
//! custom (`data-*`) attributes; the `load` handler that body and frameset
//! elements share with their window; lazily made auxiliary objects; clicks.

use crate::assoc;
use crate::attr::{Attr, AttrView, QualName};
use crate::cssstyledeclaration::{CSSModificationAccess, CSSStyleDeclaration};
use crate::custom_attr::{is_rejected, is_rejected_key, spec_to_snake_case, to_snake_case};
use crate::domstringmap::DOMStringMap;
use crate::element::{option_string_view, Element, ElementView};
use crate::error::{Error, ErrorResult};
use crate::eventtarget::{
    compiled_handler, with_listener, EventHandlerView, UncompiledHandlerView,
};
use crate::js::{EventHandlerNonNull, ObjectId};
use crate::lazy::LazySingletonSlot;
use crate::types::ElementTypeId;
use crate::window::{Window, WindowView};
use vstd::prelude::*;
use vstd::string::*;

verus! {

/// An HTML element: an element with its lazily made auxiliary objects.
pub struct HTMLElement {
    element: Element,
    style_decl: LazySingletonSlot<CSSStyleDeclaration>,
    dataset: LazySingletonSlot<DOMStringMap>,
}

/// What a contract sees of an HTML element.
pub struct HTMLElementView {
    pub element: ElementView,
    /// The style-declaration object, once it was asked for.
    pub style_decl: Option<CSSStyleDeclaration>,
    /// The dataset object, once it was asked for.
    pub dataset: Option<DOMStringMap>,
}

impl View for HTMLElement {
    type V = HTMLElementView;

    closed spec fn view(&self) -> HTMLElementView {
        HTMLElementView {
            element: self.element@,
            style_decl: self.style_decl@,
            dataset: self.dataset@,
        }
    }
}

impl HTMLElementView {
    /// The HTML element with another state of the element underneath.
    pub open spec fn with_element(self, element: ElementView) -> HTMLElementView {
        HTMLElementView { element, ..self }
    }

    /// The element is a body or a frameset element.
    pub open spec fn is_body_or_frameset(self) -> bool {
        self.element.type_id == ElementTypeId::HTMLBodyElement || self.element.type_id
            == ElementTypeId::HTMLFrameSetElement
    }
}

/// The namespace of HTML elements.
pub open spec fn html_namespace() -> Seq<char> {
    "http://www.w3.org/1999/xhtml"@
}

/// The type of the event that reports the end of loading.
pub open spec fn load_event() -> Seq<char> {
    "load"@
}

/// The attribute is an inline event handler: it has no namespace, and its
/// local name begins with `on`.
pub open spec fn is_event_handler_attr(attr: AttrView) -> bool {
    &&& attr.namespace.len() == 0
    &&& attr.local_name.len() >= 2
    &&& attr.local_name[0] == 'o'
    &&& attr.local_name[1] == 'n'
}

/// The event type that an inline event-handler attribute names: its local
/// name without the first two characters.
pub open spec fn event_type_of(attr: AttrView) -> Seq<char> {
    attr.local_name.skip(2)
}

/// The element after the HTML element handler saw the attribute: the value of
/// an inline event-handler attribute is registered as handler source for the
/// event type that the attribute names, with the window's execution context
/// and base location and the element's own reflected object. Any other
/// attribute changes nothing.
pub open spec fn bind_event_handler(
    element: ElementView,
    attr: AttrView,
    window: WindowView,
) -> ElementView {
    if is_event_handler_attr(attr) {
        element.with_handlers(
            assoc::put(
                element.handlers,
                event_type_of(attr),
                EventHandlerView::Uncompiled(
                    UncompiledHandlerView {
                        cx: window.cx,
                        url: window.url,
                        scope: element.reflector,
                        source: attr.value,
                    },
                ),
            ),
        )
    } else {
        element
    }
}

/// The element after the handlers of the chain of `level` ran, each after its
/// predecessor. Of those handlers only that of the HTML element changes the
/// element.
pub open spec fn after_handlers(
    element: ElementView,
    level: ElementTypeId,
    attr: AttrView,
    window: WindowView,
) -> ElementView {
    if level.spec_is_html() {
        bind_event_handler(element, attr, window)
    } else {
        element
    }
}

/// The element after the attribute was stored and the handlers of the
/// element's category were told.
pub open spec fn after_set_attribute(
    element: ElementView,
    attr: AttrView,
    window: WindowView,
) -> ElementView {
    after_handlers(
        element.with_attrs(assoc::put(element.attrs, attr.name(), attr.value)),
        element.type_id,
        attr,
        window,
    )
}

/// The qualified name of the attribute that stores the dataset key `key`.
pub open spec fn custom_attr_name(key: Seq<char>) -> QualName {
    (Seq::empty(), spec_to_snake_case(key))
}

/// The value that the element stores under the dataset key `key`.
pub open spec fn custom_attr(element: ElementView, key: Seq<char>) -> Option<Seq<char>> {
    assoc::get(element.attrs, custom_attr_name(key))
}

/// The element after `value` was stored under the dataset key `key`.
pub open spec fn with_custom_attr(
    element: ElementView,
    key: Seq<char>,
    value: Seq<char>,
) -> ElementView {
    element.with_attrs(assoc::put(element.attrs, custom_attr_name(key), value))
}

/// The element after what it stored under the dataset key `key` was removed.
pub open spec fn without_custom_attr(element: ElementView, key: Seq<char>) -> ElementView {
    element.with_attrs(assoc::remove(element.attrs, custom_attr_name(key)))
}

/// A synthetic activation that a click asks for, with the state of the
/// modifier keys that it is to report.
#[derive(Clone, Copy, Debug, PartialEq, Eq, Structural)]
pub struct SyntheticClick {
    pub ctrl_key: bool,
    pub alt_key: bool,
    pub shift_key: bool,
    pub meta_key: bool,
}

/// What a click on the element asks for: nothing on a disabled input element
/// and on an element without activation behavior, otherwise an activation
/// with no modifier key held.
pub open spec fn click_action(element: ElementView, activatable: bool) -> Option<SyntheticClick> {
    if element.type_id == ElementTypeId::HTMLInputElement && element.disabled {
        None
    } else if activatable {
        Some(SyntheticClick { ctrl_key: false, alt_key: false, shift_key: false, meta_key: false })
    } else {
        None
    }
}

/// Operations on the custom (`data-*`) attributes of an element, by dataset
/// key.
pub trait HTMLElementCustomAttributeHelpers {
    fn set_custom_attr(&mut self, name: String, value: String, window: &Window) -> ErrorResult;

    fn get_custom_attr(&self, name: String) -> Option<String>;

    fn delete_custom_attr(&mut self, name: String);
}

impl HTMLElement {
    /// An HTML element of the given category and tag name in the HTML
    /// namespace, reflected by `reflector`: without attributes or handlers, not
    /// disabled, and with no auxiliary object made yet.
    pub fn new_inherited(
        type_id: ElementTypeId,
        tag_name: String,
        prefix: Option<String>,
        reflector: ObjectId,
    ) -> (element: HTMLElement)
        ensures
            element@ == (HTMLElementView {
                element: ElementView {
                    type_id,
                    reflector,
                    local_name: tag_name@,
                    namespace: html_namespace(),
                    prefix: option_string_view(prefix),
                    attrs: Seq::empty(),
                    handlers: Seq::empty(),
                    disabled: false,
                },
                style_decl: None,
                dataset: None,
            }),
            element@.element.well_formed(),
    {
        HTMLElement {
            element: Element::new_inherited(
                type_id,
                tag_name,
                String::from_str("http://www.w3.org/1999/xhtml"),
                prefix,
                reflector,
            ),
            style_decl: LazySingletonSlot::new(),
            dataset: LazySingletonSlot::new(),
        }
    }

    /// An HTML element without a more specific category.
    pub fn new(local_name: String, prefix: Option<String>, reflector: ObjectId) -> (element:
        HTMLElement)
        ensures
            element@ == (HTMLElementView {
                element: ElementView {
                    type_id: ElementTypeId::HTMLElement,
                    reflector,
                    local_name: local_name@,
                    namespace: html_namespace(),
                    prefix: option_string_view(prefix),
                    attrs: Seq::empty(),
                    handlers: Seq::empty(),
                    disabled: false,
                },
                style_decl: None,
                dataset: None,
            }),
            element@.element.well_formed(),
    {
        HTMLElement::new_inherited(ElementTypeId::HTMLElement, local_name, prefix, reflector)
    }

    /// Whether the element is a body or a frameset element.
    pub fn is_body_or_frameset(&self) -> (r: bool)
        ensures
            r == self@.is_body_or_frameset(),
    {
        let eventtarget = self.element.event_target_type_id();
        eventtarget.is_htmlbodyelement() || eventtarget.is_htmlframesetelement()
    }

    /// The element's style-declaration object. The first call makes it, with
    /// the element as its owner and open to changes; every later call returns
    /// the object that the first one made.
    pub fn Style(&mut self) -> (decl: &CSSStyleDeclaration)
        ensures
            final(self)@ == (HTMLElementView { style_decl: Some(*decl), ..old(self)@ }),
            *decl == match old(self)@.style_decl {
                Some(made) => made,
                None => CSSStyleDeclaration {
                    owner: old(self)@.element.reflector,
                    readonly: false,
                },
            },
            final(self)@.element.well_formed(),
    {
        self.element.well_formed();
        let owner = self.element.reflector();
        let make = || -> (decl: CSSStyleDeclaration)
            ensures
                decl.owner == owner,
                !decl.readonly,
            {
                CSSStyleDeclaration::new(owner, CSSModificationAccess::ReadWrite)
            };
        self.style_decl.get_or_init(make)
    }

    /// The element's dataset object. The first call makes it; every later
    /// call returns the object that the first one made.
    pub fn Dataset(&mut self) -> (map: &DOMStringMap)
        ensures
            final(self)@ == (HTMLElementView { dataset: Some(*map), ..old(self)@ }),
            *map == match old(self)@.dataset {
                Some(made) => made,
                None => DOMStringMap { element: old(self)@.element.reflector },
            },
            final(self)@.element.well_formed(),
    {
        self.element.well_formed();
        let element = self.element.reflector();
        let make = || -> (map: DOMStringMap)
            ensures
                map.element == element,
            {
                DOMStringMap::new(element)
            };
        self.dataset.get_or_init(make)
    }

    /// The element's `load` handler. A body or frameset element has none of
    /// its own: it answers with its window's.
    pub fn GetOnload(&self, window: &Window) -> (listener: Option<EventHandlerNonNull>)
        ensures
            listener == if self@.is_body_or_frameset() {
                window@.onload
            } else {
                compiled_handler(assoc::get(self@.element.handlers, load_event()))
            },
    {
        if self.is_body_or_frameset() {
            window.GetOnload()
        } else {
            self.element.get_event_handler_common("load")
        }
    }

    /// Sets the element's `load` handler. On a body or frameset element the
    /// handler is installed on the window and the element stays as it is; on
    /// any other element it goes into the element's own slot and the window
    /// stays as it is.
    pub fn SetOnload(&mut self, listener: Option<EventHandlerNonNull>, window: &mut Window)
        ensures
            old(self)@.is_body_or_frameset() ==> final(self)@ == old(self)@ && final(window)@ == (
            WindowView { onload: listener, ..old(window)@ }),
            !old(self)@.is_body_or_frameset() ==> final(window)@ == old(window)@ && final(self)@
                == old(self)@.with_element(
                old(self)@.element.with_handlers(
                    with_listener(old(self)@.element.handlers, load_event(), listener),
                ),
            ),
            final(self)@.element.well_formed(),
    {
        self.element.well_formed();
        if self.is_body_or_frameset() {
            window.SetOnload(listener)
        } else {
            self.element.set_event_handler_common("load", listener)
        }
    }

    /// What a click on the element asks for. `activatable` says whether the
    /// element has an activation behavior.
    pub fn Click(&self, activatable: bool) -> (action: Option<SyntheticClick>)
        ensures
            action == click_action(self@.element, activatable),
    {
        if self.element.event_target_type_id().is_htmlinputelement()
            && self.element.get_disabled_state() {
            return None;
        }
        if activatable {
            Some(
                SyntheticClick {
                    ctrl_key: false,
                    alt_key: false,
                    shift_key: false,
                    meta_key: false,
                },
            )
        } else {
            None
        }
    }

    /// The element underneath.
    pub fn element(&self) -> (element: &Element)
        ensures
            element@ == self@.element,
    {
        &self.element
    }

    /// The value of the attribute with the given name, if the element has one.
    pub fn get_attribute(&self, namespace: &str, local_name: &str) -> (value: Option<String>)
        ensures
            option_string_view(value) == assoc::get(
                self@.element.attrs,
                (namespace@, local_name@),
            ),
    {
        self.element.get_attribute(namespace, local_name)
    }

    /// Removes the attribute with the given name, if the element has one. No
    /// handler is told.
    pub fn remove_attribute(&mut self, namespace: &str, local_name: &str)
        ensures
            final(self)@ == old(self)@.with_element(
                old(self)@.element.with_attrs(
                    assoc::remove(old(self)@.element.attrs, (namespace@, local_name@)),
                ),
            ),
            final(self)@.element.well_formed(),
    {
        self.element.remove_attribute(namespace, local_name);
    }

    /// Puts the element into the disabled state, or takes it out of it.
    pub fn set_disabled_state(&mut self, disabled: bool)
        ensures
            final(self)@ == old(self)@.with_element(
                ElementView { disabled, ..old(self)@.element },
            ),
            final(self)@.element.well_formed(),
    {
        self.element.set_disabled_state(disabled);
    }

    /// The compiled handler in the element's own slot for events of type `ty`.
    pub fn get_event_handler_common(&self, ty: &str) -> (listener: Option<EventHandlerNonNull>)
        ensures
            listener == compiled_handler(assoc::get(self@.element.handlers, ty@)),
    {
        self.element.get_event_handler_common(ty)
    }

    /// Installs `listener` in the element's own slot for events of type `ty`,
    /// or clears the slot if no listener is given.
    pub fn set_event_handler_common(&mut self, ty: &str, listener: Option<EventHandlerNonNull>)
        ensures
            final(self)@ == old(self)@.with_element(
                old(self)@.element.with_handlers(
                    with_listener(old(self)@.element.handlers, ty@, listener),
                ),
            ),
            final(self)@.element.well_formed(),
    {
        self.element.set_event_handler_common(ty, listener);
    }

    /// The HTML element handler's own reaction to a stored attribute: an
    /// inline event-handler attribute has its value registered as the source
    /// of the handler that it names.
    fn bind_event_handler(&mut self, attr: &Attr, window: &Window)
        ensures
            final(self)@ == old(self)@.with_element(
                bind_event_handler(old(self)@.element, attr@, window@),
            ),
    {
        let name = attr.local_name.as_str();
        let len = name.unicode_len();
        if attr.namespace.as_str().unicode_len() == 0 && len >= 2 && name.get_char(0) == 'o'
            && name.get_char(1) == 'n' {
            let scope = self.element.reflector();
            self.element.set_event_handler_uncompiled(
                window.get_cx(),
                window.get_url(),
                scope,
                name.substring_char(2, len),
                attr.value.clone(),
            );
        }
    }

    /// Runs the handler of `level` for a stored attribute: first the handler
    /// of the predecessor of `level`, if it has one, then the reaction of
    /// `level` itself. Each handler that ran is added to `ran` when it is done.
    pub fn after_set_attr(
        &mut self,
        level: ElementTypeId,
        attr: &Attr,
        window: &Window,
        ran: &mut Vec<ElementTypeId>,
    )
        ensures
            final(ran)@ == old(ran)@ + level.handler_chain(),
            final(self)@ == old(self)@.with_element(
                after_handlers(old(self)@.element, level, attr@, window@),
            ),
            final(self)@.element.well_formed(),
        decreases level.depth(),
    {
        match level.super_type() {
            Some(general) => self.after_set_attr(general, attr, window, ran),
            None => {},
        }
        match level {
            ElementTypeId::HTMLElement => self.bind_event_handler(attr, window),
            _ => {},
        }
        ran.push(level);
        self.element.well_formed();
    }

    /// Tells the handlers of the element's category that the attribute was
    /// stored. All of them run, from the most general to that of the category
    /// itself; the result names them in the order in which they ran.
    pub fn notify_attribute_set(&mut self, attr: &Attr, window: &Window) -> (ran: Vec<
        ElementTypeId,
    >)
        ensures
            ran@ == old(self)@.element.type_id.handler_chain(),
            final(self)@ == old(self)@.with_element(
                after_handlers(old(self)@.element, old(self)@.element.type_id, attr@, window@),
            ),
            final(self)@.element.well_formed(),
    {
        let mut ran: Vec<ElementTypeId> = Vec::new();
        let level = self.element.type_id();
        self.after_set_attr(level, attr, window, &mut ran);
        ran
    }

    /// Stores the attribute, in place of the one with the same qualified name
    /// if there is one, and then tells the handlers of the element's category.
    /// The result names the handlers in the order in which they ran.
    pub fn set_attribute(&mut self, attr: Attr, window: &Window) -> (ran: Vec<ElementTypeId>)
        ensures
            ran@ == old(self)@.element.type_id.handler_chain(),
            final(self)@ == old(self)@.with_element(
                after_set_attribute(old(self)@.element, attr@, window@),
            ),
            final(self)@.element.well_formed(),
    {
        self.element.store_attribute(attr.duplicate());
        self.notify_attribute_set(&attr, window)
    }
}

impl HTMLElementCustomAttributeHelpers for HTMLElement {
    /// Stores `value` under the dataset key `name`. A key in which a
    /// lowercase ASCII letter directly follows the first hyphen is refused
    /// with a syntax error, and the element stays as it is. With any other
    /// key the attribute named by the key is stored, with no namespace.
    fn set_custom_attr(&mut self, name: String, value: String, window: &Window) -> (r:
        ErrorResult)
        ensures
            is_rejected_key(name@) ==> r == Err::<(), Error>(Error::Syntax) && final(self)@ == old(
                self,
            )@,
            !is_rejected_key(name@) ==> r == Ok::<(), Error>(()) && final(self)@ == old(
                self,
            )@.with_element(with_custom_attr(old(self)@.element, name@, value@)),
            final(self)@.element.well_formed(),
    {
        self.element.well_formed();
        if is_rejected(name.as_str()) {
            return Err(Error::Syntax);
        }
        let attr = Attr::new(String::new(), to_snake_case(name.as_str()), value);
        // The name begins with `data-`, so no handler binds anything to it.
        let _ = self.set_attribute(attr, window);
        Ok(())
    }

    /// The value stored under the dataset key `name`, if there is one.
    fn get_custom_attr(&self, name: String) -> (value: Option<String>)
        ensures
            option_string_view(value) == custom_attr(self@.element, name@),
    {
        let attr_name = to_snake_case(name.as_str());
        proof {
            reveal_strlit("");
            assert((""@, attr_name@) =~= custom_attr_name(name@));
        }
        self.element.get_attribute("", attr_name.as_str())
    }

    /// Removes what is stored under the dataset key `name`, if anything is.
    fn delete_custom_attr(&mut self, name: String)
        ensures
            final(self)@ == old(self)@.with_element(
                without_custom_attr(old(self)@.element, name@),
            ),
            final(self)@.element.well_formed(),
    {
        let attr_name = to_snake_case(name.as_str());
        proof {
            reveal_strlit("");
            assert((""@, attr_name@) =~= custom_attr_name(name@));
        }
        self.element.remove_attribute("", attr_name.as_str());
    }
}

} // verus!
