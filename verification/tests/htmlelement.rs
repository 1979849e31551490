use htmlelement::attr::Attr;
use htmlelement::cssstyledeclaration::CSSStyleDeclaration;
use htmlelement::domstringmap::DOMStringMap;
use htmlelement::error::Error;
use htmlelement::eventtarget::{EventHandler, UncompiledHandler};
use htmlelement::htmlelement::{HTMLElement, HTMLElementCustomAttributeHelpers, SyntheticClick};
use htmlelement::js::{EventHandlerNonNull, JSContext, ObjectId};
use htmlelement::types::{ElementTypeId, EventTargetTypeId, NodeTypeId};
use htmlelement::window::Window;

const URL: &str = "http://example.org/index.html";

fn window() -> Window {
    Window::new(JSContext(1), URL.to_string())
}

fn element_of(type_id: ElementTypeId, tag: &str) -> HTMLElement {
    HTMLElement::new_inherited(type_id, tag.to_string(), None, ObjectId(100))
}

fn div() -> HTMLElement {
    HTMLElement::new("div".to_string(), None, ObjectId(100))
}

fn attr(local_name: &str, value: &str) -> Attr {
    Attr::new(String::new(), local_name.to_string(), value.to_string())
}

fn source(text: &str) -> EventHandler {
    EventHandler::Uncompiled(UncompiledHandler {
        cx: JSContext(1),
        url: URL.to_string(),
        scope: ObjectId(100),
        source: text.to_string(),
    })
}

fn unmodified_click() -> SyntheticClick {
    SyntheticClick { ctrl_key: false, alt_key: false, shift_key: false, meta_key: false }
}

#[test]
fn new_makes_a_bare_html_element() {
    let element = HTMLElement::new("span".to_string(), Some("h".to_string()), ObjectId(8));
    let inner = element.element();
    assert_eq!(inner.type_id(), ElementTypeId::HTMLElement);
    assert_eq!(inner.local_name(), "span");
    assert_eq!(inner.namespace(), "http://www.w3.org/1999/xhtml");
    assert_eq!(inner.prefix(), Some("h"));
    assert_eq!(inner.reflector(), ObjectId(8));
    assert_eq!(inner.attribute_count(), 0);
    assert_eq!(inner.handler_count(), 0);
    assert!(!inner.get_disabled_state());
}

#[test]
fn new_inherited_keeps_the_category() {
    let element = element_of(ElementTypeId::HTMLBodyElement, "body");
    let inner = element.element();
    assert_eq!(inner.type_id(), ElementTypeId::HTMLBodyElement);
    assert_eq!(
        inner.event_target_type_id(),
        EventTargetTypeId::Node(NodeTypeId::Element(ElementTypeId::HTMLBodyElement))
    );
    assert_eq!(inner.local_name(), "body");
    assert_eq!(inner.prefix(), None);
}

#[test]
fn body_and_frameset_are_recognised() {
    assert!(element_of(ElementTypeId::HTMLBodyElement, "body").is_body_or_frameset());
    assert!(element_of(ElementTypeId::HTMLFrameSetElement, "frameset").is_body_or_frameset());
    assert!(!div().is_body_or_frameset());
    assert!(!element_of(ElementTypeId::HTMLInputElement, "input").is_body_or_frameset());
    assert!(!element_of(ElementTypeId::Element, "x").is_body_or_frameset());
}

#[test]
fn custom_attr_round_trip() {
    let window = window();
    let mut element = div();
    for key in ["someProp", "abc", "", "a-B", "a--B", "x1", "fooBarBaz", "\u{e9}t\u{e9}"] {
        let value = format!("value of {}", key);
        assert_eq!(element.set_custom_attr(key.to_string(), value.clone(), &window), Ok(()));
        assert_eq!(element.get_custom_attr(key.to_string()), Some(value));
    }
}

#[test]
fn set_custom_attr_rejects_hyphen_before_lowercase() {
    let window = window();
    let mut element = div();
    assert_eq!(
        element.set_custom_attr("foo-bar".to_string(), "v".to_string(), &window),
        Err(Error::Syntax)
    );
    assert_eq!(element.element().attribute_count(), 0);
    assert_eq!(element.get_custom_attr("foo-bar".to_string()), None);
    assert_eq!(element.element().get_attribute("", "data-foo-bar"), None);
}

#[test]
fn rejected_key_leaves_an_earlier_value_untouched() {
    let window = window();
    let mut element = div();
    assert_eq!(element.set_custom_attr("fooBar".to_string(), "kept".to_string(), &window), Ok(()));
    assert_eq!(
        element.set_custom_attr("foo-bar".to_string(), "lost".to_string(), &window),
        Err(Error::Syntax)
    );
    assert_eq!(element.element().attribute_count(), 1);
    assert_eq!(element.element().get_attribute("", "data-foo-bar"), Some("kept".to_string()));
}

#[test]
fn set_custom_attr_stores_under_the_encoded_name() {
    let window = window();
    let mut element = div();
    assert_eq!(element.set_custom_attr("fooBar".to_string(), "v".to_string(), &window), Ok(()));
    assert_eq!(element.element().get_attribute("", "data-foo-bar"), Some("v".to_string()));
    assert_eq!(element.element().attribute_item(0), Some(&attr("data-foo-bar", "v")));
    assert_eq!(element.element().attribute_count(), 1);
    assert_eq!(element.element().handler_count(), 0);
}

#[test]
fn set_custom_attr_replaces_the_value() {
    let window = window();
    let mut element = div();
    assert_eq!(element.set_custom_attr("k".to_string(), "1".to_string(), &window), Ok(()));
    assert_eq!(element.set_custom_attr("k".to_string(), "2".to_string(), &window), Ok(()));
    assert_eq!(element.get_custom_attr("k".to_string()), Some("2".to_string()));
    assert_eq!(element.element().attribute_count(), 1);
}

#[test]
fn get_custom_attr_does_not_validate() {
    let window = window();
    let mut element = div();
    element.set_attribute(attr("data-foo-bar", "v"), &window);
    assert_eq!(element.get_custom_attr("foo-bar".to_string()), Some("v".to_string()));
    assert_eq!(element.get_custom_attr("fooBar".to_string()), Some("v".to_string()));
    assert_eq!(element.get_custom_attr("foobar".to_string()), None);
}

#[test]
fn get_custom_attr_looks_in_the_empty_namespace_only() {
    let window = window();
    let mut element = div();
    element.set_attribute(
        Attr::new("urn:x".to_string(), "data-k".to_string(), "v".to_string()),
        &window,
    );
    assert_eq!(element.get_custom_attr("k".to_string()), None);
}

#[test]
fn delete_custom_attr_removes_the_attribute() {
    let window = window();
    let mut element = div();
    assert_eq!(element.set_custom_attr("someProp".to_string(), "v".to_string(), &window), Ok(()));
    assert_eq!(element.set_custom_attr("other".to_string(), "w".to_string(), &window), Ok(()));
    element.delete_custom_attr("someProp".to_string());
    assert_eq!(element.get_custom_attr("someProp".to_string()), None);
    assert_eq!(element.get_custom_attr("other".to_string()), Some("w".to_string()));
    assert_eq!(element.element().attribute_count(), 1);
}

#[test]
fn delete_custom_attr_twice_is_harmless() {
    let window = window();
    let mut element = div();
    assert_eq!(element.set_custom_attr("someProp".to_string(), "v".to_string(), &window), Ok(()));
    assert_eq!(element.set_custom_attr("other".to_string(), "w".to_string(), &window), Ok(()));
    element.delete_custom_attr("someProp".to_string());
    element.delete_custom_attr("someProp".to_string());
    assert_eq!(element.get_custom_attr("someProp".to_string()), None);
    assert_eq!(element.get_custom_attr("other".to_string()), Some("w".to_string()));
    assert_eq!(element.element().attribute_count(), 1);
}

#[test]
fn delete_custom_attr_of_a_missing_key_is_harmless() {
    let mut element = div();
    element.delete_custom_attr("nothing".to_string());
    element.delete_custom_attr("foo-bar".to_string());
    assert_eq!(element.element().attribute_count(), 0);
}

#[test]
fn onclick_attribute_registers_its_source() {
    let window = window();
    let mut element = div();
    element.set_attribute(attr("onclick", "go()"), &window);
    assert_eq!(element.element().handler_count(), 1);
    assert_eq!(element.element().event_handler("click"), Some(&source("go()")));
    assert_eq!(element.element().get_attribute("", "onclick"), Some("go()".to_string()));
}

#[test]
fn second_onclick_source_replaces_the_first() {
    let window = window();
    let mut element = div();
    element.set_attribute(attr("onclick", "a()"), &window);
    element.set_attribute(attr("onclick", "b()"), &window);
    assert_eq!(element.element().handler_count(), 1);
    assert_eq!(element.element().event_handler("click"), Some(&source("b()")));
    assert_eq!(element.element().attribute_count(), 1);
}

#[test]
fn onclick_source_replaces_a_compiled_handler() {
    let window = window();
    let mut element = div();
    let handler = EventHandlerNonNull { callback: ObjectId(55) };
    element.set_event_handler_common("click", Some(handler));
    assert_eq!(element.get_event_handler_common("click"), Some(handler));
    element.set_attribute(attr("onclick", "b()"), &window);
    assert_eq!(element.element().handler_count(), 1);
    assert_eq!(element.element().event_handler("click"), Some(&source("b()")));
    assert_eq!(element.get_event_handler_common("click"), None);
}

#[test]
fn event_type_is_the_name_without_its_first_two_characters() {
    let window = window();
    let mut element = div();
    element.set_attribute(attr("onkeydown", "k()"), &window);
    element.set_attribute(attr("on", "e()"), &window);
    element.set_attribute(attr("once", "c()"), &window);
    assert_eq!(element.element().handler_count(), 3);
    assert_eq!(element.element().event_handler("keydown"), Some(&source("k()")));
    assert_eq!(element.element().event_handler(""), Some(&source("e()")));
    assert_eq!(element.element().event_handler("ce"), Some(&source("c()")));
}

#[test]
fn other_attributes_register_nothing() {
    let window = window();
    let mut element = div();
    element.set_attribute(attr("id", "x"), &window);
    element.set_attribute(attr("o", "x"), &window);
    element.set_attribute(attr("On", "x"), &window);
    element.set_attribute(attr("ON", "x"), &window);
    element.set_attribute(attr("xonclick", "x"), &window);
    element.set_attribute(attr("", "x"), &window);
    assert_eq!(element.element().attribute_count(), 6);
    assert_eq!(element.element().handler_count(), 0);
}

#[test]
fn namespaced_attribute_registers_nothing() {
    let window = window();
    let mut element = div();
    element.set_attribute(
        Attr::new("urn:x".to_string(), "onclick".to_string(), "go()".to_string()),
        &window,
    );
    assert_eq!(element.element().attribute_count(), 1);
    assert_eq!(element.element().handler_count(), 0);
}

#[test]
fn element_outside_html_binds_no_handler() {
    let window = window();
    let mut element = element_of(ElementTypeId::Element, "g");
    let ran = element.set_attribute(attr("onclick", "go()"), &window);
    assert_eq!(ran, vec![ElementTypeId::Element]);
    assert_eq!(element.element().attribute_count(), 1);
    assert_eq!(element.element().handler_count(), 0);
}

#[test]
fn handlers_run_from_general_to_specific() {
    let window = window();
    let mut element = div();
    let ran = element.notify_attribute_set(&attr("id", "x"), &window);
    assert_eq!(ran, vec![ElementTypeId::Element, ElementTypeId::HTMLElement]);
}

#[test]
fn every_handler_of_the_chain_runs() {
    let window = window();
    for t in [
        ElementTypeId::HTMLAnchorElement,
        ElementTypeId::HTMLBodyElement,
        ElementTypeId::HTMLFrameSetElement,
        ElementTypeId::HTMLInputElement,
    ] {
        let mut element = element_of(t, "x");
        let ran = element.set_attribute(attr("onclick", "go()"), &window);
        assert_eq!(ran, vec![ElementTypeId::Element, ElementTypeId::HTMLElement, t]);
        assert_eq!(element.element().event_handler("click"), Some(&source("go()")));
    }
}

#[test]
fn after_set_attr_appends_to_what_ran_before() {
    let window = window();
    let mut element = element_of(ElementTypeId::HTMLInputElement, "input");
    let mut ran = vec![ElementTypeId::HTMLBodyElement];
    element.after_set_attr(ElementTypeId::HTMLElement, &attr("onload", "l()"), &window, &mut ran);
    assert_eq!(
        ran,
        vec![ElementTypeId::HTMLBodyElement, ElementTypeId::Element, ElementTypeId::HTMLElement]
    );
    assert_eq!(element.element().event_handler("load"), Some(&source("l()")));
}

#[test]
fn after_set_attr_at_the_root_runs_one_handler() {
    let window = window();
    let mut element = div();
    let mut ran = Vec::new();
    element.after_set_attr(ElementTypeId::Element, &attr("onclick", "go()"), &window, &mut ran);
    assert_eq!(ran, vec![ElementTypeId::Element]);
    assert_eq!(element.element().handler_count(), 0);
}

#[test]
fn notification_does_not_store_the_attribute() {
    let window = window();
    let mut element = div();
    element.notify_attribute_set(&attr("onclick", "go()"), &window);
    assert_eq!(element.element().attribute_count(), 0);
    assert_eq!(element.element().event_handler("click"), Some(&source("go()")));
}

#[test]
fn body_onload_goes_to_the_window() {
    let mut window = window();
    let mut body = element_of(ElementTypeId::HTMLBodyElement, "body");
    let handler = EventHandlerNonNull { callback: ObjectId(77) };
    body.SetOnload(Some(handler), &mut window);
    assert_eq!(window.GetOnload(), Some(handler));
    assert_eq!(body.GetOnload(&window), Some(handler));
    assert_eq!(body.get_event_handler_common("load"), None);
    assert_eq!(body.element().handler_count(), 0);
}

#[test]
fn frameset_onload_goes_to_the_window() {
    let mut window = window();
    let mut frameset = element_of(ElementTypeId::HTMLFrameSetElement, "frameset");
    let handler = EventHandlerNonNull { callback: ObjectId(78) };
    frameset.SetOnload(Some(handler), &mut window);
    assert_eq!(window.GetOnload(), Some(handler));
    assert_eq!(frameset.element().handler_count(), 0);
    frameset.SetOnload(None, &mut window);
    assert_eq!(window.GetOnload(), None);
    assert_eq!(frameset.GetOnload(&window), None);
}

#[test]
fn body_own_load_slot_is_left_alone() {
    let mut window = window();
    let mut body = element_of(ElementTypeId::HTMLBodyElement, "body");
    let own = EventHandlerNonNull { callback: ObjectId(1) };
    let shared = EventHandlerNonNull { callback: ObjectId(2) };
    body.set_event_handler_common("load", Some(own));
    body.SetOnload(Some(shared), &mut window);
    assert_eq!(body.get_event_handler_common("load"), Some(own));
    assert_eq!(body.GetOnload(&window), Some(shared));
}

#[test]
fn other_elements_keep_onload_to_themselves() {
    let mut window = window();
    let mut element = div();
    let handler = EventHandlerNonNull { callback: ObjectId(77) };
    element.SetOnload(Some(handler), &mut window);
    assert_eq!(window.GetOnload(), None);
    assert_eq!(element.GetOnload(&window), Some(handler));
    assert_eq!(element.get_event_handler_common("load"), Some(handler));
    element.SetOnload(None, &mut window);
    assert_eq!(element.GetOnload(&window), None);
    assert_eq!(element.element().handler_count(), 0);
}

#[test]
fn other_elements_do_not_read_the_window_onload() {
    let mut window = window();
    window.SetOnload(Some(EventHandlerNonNull { callback: ObjectId(3) }));
    let element = element_of(ElementTypeId::HTMLInputElement, "input");
    assert_eq!(element.GetOnload(&window), None);
}

#[test]
fn body_uses_its_own_slot_for_other_events() {
    let mut window = window();
    let mut body = element_of(ElementTypeId::HTMLBodyElement, "body");
    let handler = EventHandlerNonNull { callback: ObjectId(9) };
    body.set_event_handler_common("click", Some(handler));
    assert_eq!(body.get_event_handler_common("click"), Some(handler));
    assert_eq!(window.GetOnload(), None);
    body.SetOnload(None, &mut window);
    assert_eq!(body.get_event_handler_common("click"), Some(handler));
}

#[test]
fn click_on_disabled_input_does_nothing() {
    let mut input = element_of(ElementTypeId::HTMLInputElement, "input");
    input.set_disabled_state(true);
    assert_eq!(input.Click(true), None);
    assert_eq!(input.Click(false), None);
}

#[test]
fn click_on_enabled_element_activates_without_modifiers() {
    let mut input = element_of(ElementTypeId::HTMLInputElement, "input");
    assert_eq!(input.Click(true), Some(unmodified_click()));
    input.set_disabled_state(true);
    input.set_disabled_state(false);
    assert_eq!(input.Click(true), Some(unmodified_click()));
    let anchor = element_of(ElementTypeId::HTMLAnchorElement, "a");
    assert_eq!(anchor.Click(true), Some(unmodified_click()));
}

#[test]
fn click_without_activation_behavior_does_nothing() {
    assert_eq!(div().Click(false), None);
    assert_eq!(element_of(ElementTypeId::HTMLInputElement, "input").Click(false), None);
}

#[test]
fn disabled_state_stops_input_elements_only() {
    let mut anchor = element_of(ElementTypeId::HTMLAnchorElement, "a");
    anchor.set_disabled_state(true);
    assert!(anchor.element().get_disabled_state());
    assert_eq!(anchor.Click(true), Some(unmodified_click()));
}

#[test]
fn style_object_is_made_once() {
    let mut element = div();
    let first = *element.Style();
    assert_eq!(first, CSSStyleDeclaration { owner: ObjectId(100), readonly: false });
    let second = *element.Style();
    assert_eq!(second, first);
}

#[test]
fn dataset_object_is_made_once() {
    let mut element = HTMLElement::new("div".to_string(), None, ObjectId(31));
    let first = *element.Dataset();
    assert_eq!(first, DOMStringMap { element: ObjectId(31) });
    let second = *element.Dataset();
    assert_eq!(second, first);
}

#[test]
fn auxiliary_objects_do_not_touch_the_element() {
    let window = window();
    let mut element = div();
    element.set_attribute(attr("onclick", "go()"), &window);
    element.Style();
    element.Dataset();
    assert_eq!(element.element().attribute_count(), 1);
    assert_eq!(element.element().handler_count(), 1);
    assert_eq!(element.element().type_id(), ElementTypeId::HTMLElement);
}

#[test]
fn category_never_changes() {
    let mut window = window();
    let mut element = element_of(ElementTypeId::HTMLInputElement, "input");
    element.set_attribute(attr("onclick", "go()"), &window);
    assert_eq!(element.set_custom_attr("k".to_string(), "v".to_string(), &window), Ok(()));
    element.delete_custom_attr("k".to_string());
    element.SetOnload(None, &mut window);
    element.set_disabled_state(true);
    assert_eq!(element.element().type_id(), ElementTypeId::HTMLInputElement);
    assert_eq!(element.element().reflector(), ObjectId(100));
    assert_eq!(element.element().local_name(), "input");
}

#[test]
fn remove_attribute_leaves_handlers_registered() {
    let window = window();
    let mut element = div();
    element.set_attribute(attr("onclick", "go()"), &window);
    element.set_attribute(attr("id", "x"), &window);
    element.remove_attribute("", "onclick");
    assert_eq!(element.get_attribute("", "onclick"), None);
    assert_eq!(element.get_attribute("", "id"), Some("x".to_string()));
    assert_eq!(element.element().attribute_count(), 1);
    assert_eq!(element.element().event_handler("click"), Some(&source("go()")));
}
