//! The window component: a frame with a top bar of three colored buttons
//! and a body that holds the caller's children.
//!
//! The layout is described as a tree of [`Element`]s whose leaves may be the
//! caller's own children, kept unchanged and in order.

use vstd::prelude::*;
use vstd::string::StringExecFns;
use crate::colors::{green, green_spec, red, red_spec, yellow, yellow_spec};

verus! {

/// The shade a window is drawn in.
#[derive(Clone, Copy, Debug, PartialEq, Eq, Structural)]
pub enum WindowShade {
    Code,
    Default,
}

/// The class names that are present, in order.
pub open spec fn present_classes(parts: Seq<Option<Seq<char>>>) -> Seq<Seq<char>>
    decreases parts.len(),
{
    if parts.len() == 0 {
        seq![]
    } else {
        let rest = present_classes(parts.drop_last());
        match parts.last() {
            Some(class) => rest.push(class),
            None => rest,
        }
    }
}

/// Class names joined by single spaces.
pub open spec fn joined_classes(classes: Seq<Seq<char>>) -> Seq<char>
    decreases classes.len(),
{
    if classes.len() == 0 {
        seq![]
    } else if classes.len() == 1 {
        classes[0]
    } else {
        joined_classes(classes.drop_last()) + seq![' '] + classes.last()
    }
}

/// The class attribute made of the parts that are present.
pub open spec fn class_list_spec(parts: Seq<Option<Seq<char>>>) -> Seq<char> {
    joined_classes(present_classes(parts))
}

/// Absent class names leave no trace in a class attribute: removing one
/// from the parts gives the same attribute.
pub proof fn lemma_absent_classes_are_skipped(parts: Seq<Option<Seq<char>>>, i: int)
    requires
        0 <= i < parts.len(),
        parts[i] is None,
    ensures
        class_list_spec(parts.remove(i)) == class_list_spec(parts),
{
    lemma_present_classes_skip_absent(parts, i);
}

proof fn lemma_present_classes_skip_absent(parts: Seq<Option<Seq<char>>>, i: int)
    requires
        0 <= i < parts.len(),
        parts[i] is None,
    ensures
        present_classes(parts.remove(i)) == present_classes(parts),
    decreases parts.len(),
{
    if i == parts.len() - 1 {
        assert(parts.remove(i) =~= parts.drop_last());
    } else {
        let shorter = parts.remove(i);
        assert(shorter.drop_last() =~= parts.drop_last().remove(i));
        assert(shorter.last() == parts.last());
        lemma_present_classes_skip_absent(parts.drop_last(), i);
    }
}

/// A class attribute made of absent class names only is empty.
pub proof fn lemma_no_present_classes_is_empty(parts: Seq<Option<Seq<char>>>)
    requires
        forall|i: int| 0 <= i < parts.len() ==> #[trigger] parts[i] is None,
    ensures
        class_list_spec(parts) == Seq::<char>::empty(),
{
    lemma_no_present_classes(parts);
}

proof fn lemma_no_present_classes(parts: Seq<Option<Seq<char>>>)
    requires
        forall|i: int| 0 <= i < parts.len() ==> #[trigger] parts[i] is None,
    ensures
        present_classes(parts).len() == 0,
    decreases parts.len(),
{
    if parts.len() > 0 {
        let rest = parts.drop_last();
        assert forall|i: int| 0 <= i < rest.len() implies #[trigger] rest[i] is None by {
            assert(rest[i] == parts[i]);
        }
        lemma_no_present_classes(rest);
        assert(parts[parts.len() - 1] is None);
    }
}

/// How a class attribute grows: it starts empty, an absent name leaves it
/// unchanged, and a present name is appended, after a single space when some
/// name is already present.
pub proof fn lemma_class_list_steps(parts: Seq<Option<Seq<char>>>, class: Seq<char>)
    ensures
        class_list_spec(Seq::<Option<Seq<char>>>::empty()) == Seq::<char>::empty(),
        class_list_spec(parts.push(None)) == class_list_spec(parts),
        (forall|i: int| 0 <= i < parts.len() ==> #[trigger] parts[i] is None) ==> class_list_spec(
            parts.push(Some(class)),
        ) == class,
        (exists|i: int| 0 <= i < parts.len() && #[trigger] parts[i] is Some) ==> class_list_spec(
            parts.push(Some(class)),
        ) == class_list_spec(parts) + seq![' '] + class,
{
    lemma_present_classes_steps(parts, class);
    let present = present_classes(parts);
    assert(present.push(class).drop_last() =~= present);
    if forall|i: int| 0 <= i < parts.len() ==> #[trigger] parts[i] is None {
        lemma_no_present_classes(parts);
    }
    if exists|i: int| 0 <= i < parts.len() && #[trigger] parts[i] is Some {
        let i = choose|i: int| 0 <= i < parts.len() && #[trigger] parts[i] is Some;
        lemma_present_class_is_kept(parts, i);
    }
}

/// The present class names grow with the parts: an absent part adds
/// nothing, a present one is added at the end; none are present at first.
pub proof fn lemma_present_classes_steps(parts: Seq<Option<Seq<char>>>, class: Seq<char>)
    ensures
        present_classes(Seq::<Option<Seq<char>>>::empty()) == Seq::<Seq<char>>::empty(),
        present_classes(parts.push(None)) == present_classes(parts),
        present_classes(parts.push(Some(class))) == present_classes(parts).push(class),
{
    assert(parts.push(None).drop_last() =~= parts);
    assert(parts.push(Some(class)).drop_last() =~= parts);
}

/// A part that is present makes the present class names non-empty.
pub proof fn lemma_present_class_is_kept(parts: Seq<Option<Seq<char>>>, i: int)
    requires
        0 <= i < parts.len(),
        parts[i] is Some,
    ensures
        present_classes(parts).len() >= 1,
        present_classes(parts).len() <= parts.len(),
    decreases parts.len(),
{
    lemma_present_classes_bounded(parts);
    if i < parts.len() - 1 {
        assert(parts.drop_last()[i] == parts[i]);
        lemma_present_class_is_kept(parts.drop_last(), i);
    }
}

proof fn lemma_present_classes_bounded(parts: Seq<Option<Seq<char>>>)
    ensures
        present_classes(parts).len() <= parts.len(),
    decreases parts.len(),
{
    if parts.len() > 0 {
        lemma_present_classes_bounded(parts.drop_last());
    }
}

/// Joining class names: nothing gives the empty string, one name gives that
/// name, and each further name is added after a single space.
pub proof fn lemma_joined_classes_steps(classes: Seq<Seq<char>>, class: Seq<char>)
    ensures
        joined_classes(Seq::<Seq<char>>::empty()) == Seq::<char>::empty(),
        joined_classes(seq![class]) == class,
        classes.len() > 0 ==> joined_classes(classes.push(class)) == joined_classes(classes) + seq![' ']
            + class,
{
    assert(classes.push(class).drop_last() =~= classes);
}

/// The view of each optional class name is taken in place.
pub proof fn lemma_optional_views(parts: Seq<Option<String>>)
    ensures
        optional_views(parts).len() == parts.len(),
        forall|i: int|
            0 <= i < parts.len() ==> (#[trigger] optional_views(parts)[i] is None <==> parts[i] is None),
        forall|i: int|
            0 <= i < parts.len() && parts[i] is Some ==> #[trigger] optional_views(parts)[i] == Some(
                parts[i]->0@,
            ),
{
}

/// Every child is placed as a node, in order: none is dropped, moved or
/// added.
pub proof fn lemma_child_nodes<C>(children: Seq<C>)
    ensures
        child_nodes(children).len() == children.len(),
        forall|i: int|
            0 <= i < children.len() ==> #[trigger] child_nodes(children)[i] == Node::Child(children[i]),
{
}

/// The views of optional class names.
pub open spec fn optional_views(parts: Seq<Option<String>>) -> Seq<Option<Seq<char>>> {
    parts.map_values(|p: Option<String>| match p {
        Some(s) => Some(s@),
        None => None,
    })
}

/// Builds a class attribute from optional class names: the names that are
/// present, in order, separated by single spaces; absent ones are skipped.
pub fn class_list(parts: &Vec<Option<String>>) -> (class: String)
    ensures
        class@ == class_list_spec(optional_views(parts@)),
{
    let ghost views = optional_views(parts@);
    let mut class = String::new();
    let mut first = true;
    let mut i: usize = 0;
    while i < parts.len()
        invariant
            i <= parts.len(),
            views == optional_views(parts@),
            class@ == joined_classes(present_classes(views.take(i as int))),
            first == (present_classes(views.take(i as int)).len() == 0),
        decreases parts.len() - i,
    {
        assert(views.take(i + 1).drop_last() =~= views.take(i as int));
        match &parts[i] {
            Some(name) => {
                let ghost before = present_classes(views.take(i as int));
                assert(views[i as int] == Some(name@));
                assert(present_classes(views.take(i + 1)) == before.push(name@));
                assert(before.push(name@).drop_last() =~= before);
                if !first {
                    proof {
                        reveal_strlit(" ");
                    }
                    class.append(" ");
                }
                class.append(name.as_str());
                first = false;
            },
            None => {},
        }
        i = i + 1;
    }
    assert(views.take(parts.len() as int) =~= views);
    class
}

/// A node of a layout: an element of the layout itself, or one of the
/// caller's children placed in it.
pub enum Node<C> {
    Element(Element<C>),
    Child(C),
}

/// An element of a layout: its class attribute, its background color if it
/// has one, and its child nodes in order.
pub struct Element<C> {
    pub class: String,
    pub background_color: Option<String>,
    pub children: Vec<Node<C>>,
}

/// The view of an optional string.
pub open spec fn optional_view(s: Option<String>) -> Option<Seq<char>> {
    match s {
        Some(s) => Some(s@),
        None => None,
    }
}

/// The class attribute of a window's body.
pub open spec fn window_body_class_spec(padding: bool) -> Seq<char> {
    class_list_spec(
        seq![Some("window-body"@), if padding { Some("window-body-padding"@) } else { None }],
    )
}

/// `node` is an element with the given class and background color and no
/// children.
pub open spec fn is_leaf<C>(node: Node<C>, class: Seq<char>, background_color: Option<Seq<char>>) -> bool {
    match node {
        Node::Element(e) => {
            &&& e.class@ == class
            &&& optional_view(e.background_color) == background_color
            &&& e.children@.len() == 0
        },
        Node::Child(_) => false,
    }
}

/// `node` is a window's top bar: three buttons, red, yellow and green.
pub open spec fn is_window_topbar<C>(node: Node<C>) -> bool {
    match node {
        Node::Element(e) => {
            &&& e.class@ == "window-topbar"@
            &&& e.background_color is None
            &&& e.children@.len() == 3
            &&& is_leaf(e.children@[0], "window-topbar-button"@, Some(red_spec()))
            &&& is_leaf(e.children@[1], "window-topbar-button"@, Some(yellow_spec()))
            &&& is_leaf(e.children@[2], "window-topbar-button"@, Some(green_spec()))
        },
        Node::Child(_) => false,
    }
}

/// The caller's children placed as nodes, in order.
pub open spec fn child_nodes<C>(children: Seq<C>) -> Seq<Node<C>> {
    children.map_values(|c: C| Node::Child(c))
}

/// `node` is a window's body holding `children` in order.
pub open spec fn is_window_body<C>(node: Node<C>, padding: bool, children: Seq<C>) -> bool {
    match node {
        Node::Element(e) => {
            &&& e.class@ == window_body_class_spec(padding)
            &&& e.background_color is None
            &&& e.children@ == child_nodes(children)
        },
        Node::Child(_) => false,
    }
}

/// `node` is the layout of a window: a wrapper holding the top bar, then
/// the body with the caller's children.
pub open spec fn is_window_layout<C>(node: Node<C>, padding: bool, children: Seq<C>) -> bool {
    match node {
        Node::Element(e) => {
            &&& e.class@ == "window-wrapper"@
            &&& e.background_color is None
            &&& e.children@.len() == 2
            &&& is_window_topbar(e.children@[0])
            &&& is_window_body(e.children@[1], padding, children)
        },
        Node::Child(_) => false,
    }
}

/// The class attribute of a window's body: `window-body`, followed by
/// `window-body-padding` when the window has padding.
pub fn window_body_class(padding: bool) -> (class: String)
    ensures
        class@ == window_body_class_spec(padding),
        padding ==> class@ == "window-body"@ + seq![' '] + "window-body-padding"@,
        !padding ==> class@ == "window-body"@,
{
    let mut parts: Vec<Option<String>> = Vec::new();
    parts.push(Some(String::from_str("window-body")));
    if padding {
        parts.push(Some(String::from_str("window-body-padding")));
    } else {
        parts.push(None);
    }
    let class = class_list(&parts);
    proof {
        let views = optional_views(parts@);
        let first = views.drop_last();
        assert(views =~= seq![Some("window-body"@), if padding { Some("window-body-padding"@) } else { None }]);
        assert(first.drop_last() =~= Seq::<Option<Seq<char>>>::empty());
        assert(present_classes(first.drop_last()) == Seq::<Seq<char>>::empty());
        assert(first.last() == Some("window-body"@));
        assert(present_classes(first) =~= seq!["window-body"@]);
        let p = present_classes(views);
        if padding {
            assert(p =~= seq!["window-body"@, "window-body-padding"@]);
            assert(p.drop_last() =~= seq!["window-body"@]);
            assert(joined_classes(p.drop_last()) == "window-body"@);
            assert(joined_classes(p) == "window-body"@ + seq![' '] + "window-body-padding"@);
        } else {
            assert(p =~= seq!["window-body"@]);
        }
    }
    class
}

/// A leaf element with a class and an optional background color.
fn leaf<C>(class: String, background_color: Option<String>) -> (node: Node<C>)
    ensures
        is_leaf(node, class@, optional_view(background_color)),
{
    Node::Element(Element { class, background_color, children: Vec::new() })
}

/// A window: whether its body has padding, if set, and its children.
pub struct Window<C> {
    pub padding: Option<bool>,
    pub children: Vec<C>,
}

impl<C> Window<C> {
    /// A window with no children whose padding is not set.
    pub fn new() -> (window: Self)
        ensures
            window.padding is None,
            window.children@.len() == 0,
    {
        Window { padding: None, children: Vec::new() }
    }

    /// Sets whether the body has padding.
    pub fn padding(self, padding: Option<bool>) -> (window: Self)
        ensures
            window.padding == padding,
            window.children@ == self.children@,
    {
        Window { padding, children: self.children }
    }

    /// Appends a child to the body.
    pub fn child(self, child: C) -> (window: Self)
        ensures
            window.padding == self.padding,
            window.children@ == self.children@.push(child),
    {
        let mut children = self.children;
        children.push(child);
        Window { padding: self.padding, children }
    }

    /// Whether the body has padding: it has unless padding is turned off.
    pub fn has_padding(&self) -> (padding: bool)
        ensures
            padding == (self.padding != Some(false)),
    {
        match self.padding {
            Some(p) => p,
            None => true,
        }
    }

    /// Lays the window out: a wrapper holding the top bar, with its red,
    /// yellow and green buttons, then the body, whose class depends on the
    /// padding and which holds the window's children in order.
    pub fn into_node(self) -> (node: Node<C>)
        ensures
            is_window_layout(node, self.padding != Some(false), self.children@),
            node is Element,
            node->Element_0.class@ == "window-wrapper"@,
            node->Element_0.background_color is None,
            node->Element_0.children@.len() == 2,
            node->Element_0.children@[0] is Element,
            node->Element_0.children@[0]->Element_0.class@ == "window-topbar"@,
            node->Element_0.children@[0]->Element_0.background_color is None,
            node->Element_0.children@[0]->Element_0.children@.len() == 3,
            forall|k: int|
                0 <= k < 3 ==> #[trigger] node->Element_0.children@[0]->Element_0.children@[k] is Element
                    && node->Element_0.children@[0]->Element_0.children@[k]->Element_0.class@
                    == "window-topbar-button"@
                    && node->Element_0.children@[0]->Element_0.children@[k]->Element_0.children@.len()
                    == 0
                    && node->Element_0.children@[0]->Element_0.children@[k]->Element_0.background_color is Some,
            node->Element_0.children@[0]->Element_0.children@[0]->Element_0.background_color->0@
                == "var(--red)"@,
            node->Element_0.children@[0]->Element_0.children@[1]->Element_0.background_color->0@
                == "var(--yellow)"@,
            node->Element_0.children@[0]->Element_0.children@[2]->Element_0.background_color->0@
                == "var(--green)"@,
            node->Element_0.children@[1] is Element,
            node->Element_0.children@[1]->Element_0.background_color is None,
            self.padding != Some(false) ==> node->Element_0.children@[1]->Element_0.class@
                == "window-body"@ + seq![' '] + "window-body-padding"@,
            self.padding == Some(false) ==> node->Element_0.children@[1]->Element_0.class@
                == "window-body"@,
            node->Element_0.children@[1]->Element_0.children@.len() == self.children@.len(),
            forall|i: int|
                0 <= i < self.children@.len() ==> #[trigger] node->Element_0.children@[1]->Element_0.children@[i]
                    == Node::Child(self.children@[i]),
    {
        let padding = self.has_padding();
        let mut buttons: Vec<Node<C>> = Vec::new();
        buttons.push(leaf(String::from_str("window-topbar-button"), Some(red())));
        buttons.push(leaf(String::from_str("window-topbar-button"), Some(yellow())));
        buttons.push(leaf(String::from_str("window-topbar-button"), Some(green())));
        let topbar = Node::Element(Element {
            class: String::from_str("window-topbar"),
            background_color: None,
            children: buttons,
        });
        let ghost children = self.children@;
        let mut body_children: Vec<Node<C>> = Vec::new();
        for child in it: self.children.into_iter()
            invariant
                it.seq() == children,
                body_children@ == child_nodes(children.take(it.index() as int)),
        {
            assert(children.take(it.index() + 1) =~= children.take(it.index() as int).push(child));
            body_children.push(Node::Child(child));
            assert(body_children@ =~= child_nodes(children.take(it.index() + 1)));
        }
        assert(children.take(children.len() as int) =~= children);
        let body = Node::Element(Element {
            class: window_body_class(padding),
            background_color: None,
            children: body_children,
        });
        let mut sections: Vec<Node<C>> = Vec::new();
        sections.push(topbar);
        sections.push(body);
        Node::Element(Element {
            class: String::from_str("window-wrapper"),
            background_color: None,
            children: sections,
        })
    }
}

} // verus!
