//! What holds of the operations on an element, whatever the element and the
//! values are.

use crate::assoc;
use crate::attr::AttrView;
use crate::custom_attr::{
    is_rejected_key, lemma_no_hyphen_before_lowercase_is_accepted, lemma_to_snake_case_injective,
    no_hyphen_before_lowercase,
};
use crate::element::ElementView;
use crate::eventtarget::{EventHandlerView, UncompiledHandlerView};
use crate::htmlelement::{
    after_set_attribute, custom_attr, custom_attr_name, event_type_of, is_event_handler_attr,
    with_custom_attr, without_custom_attr,
};
use crate::window::WindowView;
use vstd::prelude::*;

verus! {

/// A key in which no hyphen is directly followed by a lowercase ASCII letter
/// can be set, and what was stored under it is what is then found under it.
pub proof fn lemma_custom_attr_round_trip(element: ElementView, key: Seq<char>, value: Seq<char>)
    requires
        no_hyphen_before_lowercase(key),
    ensures
        !is_rejected_key(key),
        custom_attr(with_custom_attr(element, key, value), key) == Some(value),
{
    lemma_no_hyphen_before_lowercase_is_accepted(key);
    assoc::lemma_get_put_same(element.attrs, custom_attr_name(key), value);
}

/// Whatever the key is: once a value is stored under it, that value is what
/// is found under it.
pub proof fn lemma_custom_attr_get_after_set(element: ElementView, key: Seq<char>, value: Seq<char>)
    ensures
        custom_attr(with_custom_attr(element, key, value), key) == Some(value),
{
    assoc::lemma_get_put_same(element.attrs, custom_attr_name(key), value);
}

/// Of two different keys in which no hyphen is directly followed by a
/// lowercase ASCII letter, neither sees what is stored or deleted under the
/// other.
pub proof fn lemma_custom_attrs_are_independent(
    element: ElementView,
    key: Seq<char>,
    value: Seq<char>,
    other: Seq<char>,
)
    requires
        no_hyphen_before_lowercase(key),
        no_hyphen_before_lowercase(other),
        key != other,
    ensures
        custom_attr(with_custom_attr(element, key, value), other) == custom_attr(element, other),
        custom_attr(without_custom_attr(element, key), other) == custom_attr(element, other),
{
    if custom_attr_name(key) == custom_attr_name(other) {
        lemma_to_snake_case_injective(key, other);
    }
    assoc::lemma_get_put_other(element.attrs, custom_attr_name(key), value, custom_attr_name(other));
    assoc::lemma_get_remove_other(element.attrs, custom_attr_name(key), custom_attr_name(other));
}

/// After a key was deleted nothing is stored under it, and deleting it once
/// more changes nothing.
pub proof fn lemma_delete_custom_attr_idempotent(element: ElementView, key: Seq<char>)
    requires
        element.well_formed(),
    ensures
        custom_attr(without_custom_attr(element, key), key) is None,
        without_custom_attr(without_custom_attr(element, key), key) == without_custom_attr(
            element,
            key,
        ),
        without_custom_attr(element, key).well_formed(),
{
    let name = custom_attr_name(key);
    assoc::lemma_get_remove_same(element.attrs, name);
    assoc::lemma_remove_remove(element.attrs, name);
    assoc::lemma_remove_unique(element.attrs, name);
}

/// Setting an inline event-handler attribute of an HTML element twice leaves
/// exactly one handler registered for its event type, which holds the second
/// source; the slots are those that setting the second value alone would
/// have left.
pub proof fn lemma_event_handler_replaced(
    element: ElementView,
    first: AttrView,
    second: AttrView,
    window: WindowView,
)
    requires
        element.well_formed(),
        element.type_id.spec_is_html(),
        is_event_handler_attr(first),
        first.name() == second.name(),
    ensures
        ({
            let twice = after_set_attribute(
                after_set_attribute(element, first, window),
                second,
                window,
            );
            let ty = event_type_of(second);
            &&& assoc::count(twice.handlers, ty) == 1
            &&& assoc::get(twice.handlers, ty) == Some(
                EventHandlerView::Uncompiled(
                    UncompiledHandlerView {
                        cx: window.cx,
                        url: window.url,
                        scope: element.reflector,
                        source: second.value,
                    },
                ),
            )
            &&& twice.handlers == after_set_attribute(element, second, window).handlers
            &&& twice.well_formed()
        }),
{
    let ty = event_type_of(second);
    let once = after_set_attribute(element, first, window);
    let twice = after_set_attribute(once, second, window);
    let h1 = EventHandlerView::Uncompiled(
        UncompiledHandlerView {
            cx: window.cx,
            url: window.url,
            scope: element.reflector,
            source: first.value,
        },
    );
    let h2 = EventHandlerView::Uncompiled(
        UncompiledHandlerView {
            cx: window.cx,
            url: window.url,
            scope: element.reflector,
            source: second.value,
        },
    );
    assoc::lemma_put_put(element.handlers, ty, h1, h2);
    assoc::lemma_get_put_same(once.handlers, ty, h2);
    assoc::lemma_put_unique(element.handlers, ty, h1);
    assoc::lemma_put_unique(once.handlers, ty, h2);
    assoc::lemma_put_unique(element.attrs, first.name(), first.value);
    assoc::lemma_put_unique(once.attrs, second.name(), second.value);
    assoc::lemma_count_unique(twice.handlers, ty);
}

} // verus!
