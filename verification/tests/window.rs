use htmlelement::js::{EventHandlerNonNull, JSContext, ObjectId};
use htmlelement::window::Window;

#[test]
fn new_window_keeps_context_and_location() {
    let window = Window::new(JSContext(11), "http://example.org/page".to_string());
    assert_eq!(window.get_cx(), JSContext(11));
    assert_eq!(window.get_url(), "http://example.org/page");
    assert_eq!(window.GetOnload(), None);
}

#[test]
fn onload_handler_can_be_set_and_cleared() {
    let mut window = Window::new(JSContext(11), "http://example.org/".to_string());
    let handler = EventHandlerNonNull { callback: ObjectId(2) };
    window.SetOnload(Some(handler));
    assert_eq!(window.GetOnload(), Some(handler));
    assert_eq!(window.get_cx(), JSContext(11));
    assert_eq!(window.get_url(), "http://example.org/");
    window.SetOnload(None);
    assert_eq!(window.GetOnload(), None);
}
