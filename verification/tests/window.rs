use tangram_wasm::colors::{green, red, yellow};
use tangram_wasm::window::{class_list, window_body_class, Element, Node, Window, WindowShade};

fn element<C>(node: &Node<C>) -> &Element<C> {
    match node {
        Node::Element(e) => e,
        Node::Child(_) => panic!("expected an element"),
    }
}

fn check_layout(node: &Node<&str>, body_class: &str, children: &[&str]) {
    let wrapper = element(node);
    assert_eq!(wrapper.class, "window-wrapper");
    assert_eq!(wrapper.background_color, None);
    assert_eq!(wrapper.children.len(), 2);
    let topbar = element(&wrapper.children[0]);
    assert_eq!(topbar.class, "window-topbar");
    assert_eq!(topbar.background_color, None);
    let colors = ["var(--red)", "var(--yellow)", "var(--green)"];
    assert_eq!(topbar.children.len(), 3);
    for (button, color) in topbar.children.iter().zip(colors.iter()) {
        let button = element(button);
        assert_eq!(button.class, "window-topbar-button");
        assert_eq!(button.background_color.as_deref(), Some(*color));
        assert!(button.children.is_empty());
    }
    let body = element(&wrapper.children[1]);
    assert_eq!(body.class, body_class);
    assert_eq!(body.background_color, None);
    let placed: Vec<&str> = body
        .children
        .iter()
        .map(|child| match child {
            Node::Child(c) => *c,
            Node::Element(_) => panic!("expected a child"),
        })
        .collect();
    assert_eq!(placed, children);
}

#[test]
fn body_class_with_padding() {
    assert_eq!(window_body_class(true), "window-body window-body-padding");
}

#[test]
fn body_class_without_padding() {
    assert_eq!(window_body_class(false), "window-body");
}

#[test]
fn class_list_skips_absent_names() {
    let parts = vec![
        None,
        Some(String::from("a")),
        None,
        Some(String::from("b")),
        Some(String::from("c")),
        None,
    ];
    assert_eq!(class_list(&parts), "a b c");
}

#[test]
fn class_list_of_nothing_is_empty() {
    assert_eq!(class_list(&vec![]), "");
    assert_eq!(class_list(&vec![None, None]), "");
}

#[test]
fn padding_is_on_by_default() {
    let window: Window<&str> = Window::new();
    assert!(window.has_padding());
    assert!(window.padding(Some(true)).has_padding());
    let window: Window<&str> = Window::new();
    assert!(!window.padding(Some(false)).has_padding());
}

#[test]
fn default_window_layout() {
    let window = Window::new().child("first").child("second");
    check_layout(&window.into_node(), "window-body window-body-padding", &["first", "second"]);
}

#[test]
fn window_without_padding_layout() {
    let window = Window::new().padding(Some(false)).child("only");
    check_layout(&window.into_node(), "window-body", &["only"]);
}

#[test]
fn window_with_explicit_padding_and_no_children() {
    let window: Window<&str> = Window::new().padding(Some(true));
    check_layout(&window.into_node(), "window-body window-body-padding", &[]);
}

#[test]
fn topbar_colors() {
    assert_eq!(red(), "var(--red)");
    assert_eq!(yellow(), "var(--yellow)");
    assert_eq!(green(), "var(--green)");
}

#[test]
fn window_shades_are_distinct() {
    assert_ne!(WindowShade::Code, WindowShade::Default);
}
