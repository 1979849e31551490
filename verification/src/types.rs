//! Type tags of event targets, nodes and elements, and the handler chain that
//! an element's tag stands for.

use vstd::prelude::*;

verus! {

/// The category of an element. It is fixed when the element is made and
/// decides which chain of mutation handlers applies to it.
#[derive(Clone, Copy, Debug, PartialEq, Eq, Structural)]
pub enum ElementTypeId {
    /// An element that is no HTML element.
    Element,
    /// An HTML element without a more specific category.
    HTMLElement,
    HTMLAnchorElement,
    HTMLBodyElement,
    HTMLFrameSetElement,
    HTMLInputElement,
}

/// The kind of a node.
#[derive(Clone, Copy, Debug, PartialEq, Eq, Structural)]
pub enum NodeTypeId {
    DocumentType,
    DocumentFragment,
    Comment,
    Document,
    Element(ElementTypeId),
    Text,
    ProcessingInstruction,
}

/// The kind of an object that events can be dispatched to.
#[derive(Clone, Copy, Debug, PartialEq, Eq, Structural)]
pub enum EventTargetTypeId {
    Node(NodeTypeId),
    WebSocket,
    Window,
    Worker,
    XMLHttpRequest,
}

impl ElementTypeId {
    /// The category whose handler runs directly before this one's; the root of
    /// the hierarchy has none.
    pub open spec fn spec_super_type(self) -> Option<ElementTypeId> {
        match self {
            ElementTypeId::Element => None,
            ElementTypeId::HTMLElement => Some(ElementTypeId::Element),
            _ => Some(ElementTypeId::HTMLElement),
        }
    }

    /// The number of categories above this one.
    pub open spec fn depth(self) -> nat {
        match self {
            ElementTypeId::Element => 0,
            ElementTypeId::HTMLElement => 1,
            _ => 2,
        }
    }

    /// The handlers that a mutation of an element of this category runs, from
    /// the most general category down to this one.
    pub open spec fn handler_chain(self) -> Seq<ElementTypeId>
        decreases self.depth(),
    {
        match self.spec_super_type() {
            None => seq![self],
            Some(general) => general.handler_chain().push(self),
        }
    }

    /// Whether the HTML element handler is part of this category's chain.
    pub open spec fn spec_is_html(self) -> bool {
        self != ElementTypeId::Element
    }

    /// The predecessor in the handler chain, if there is one.
    #[verifier::when_used_as_spec(spec_super_type)]
    pub fn super_type(self) -> (general: Option<ElementTypeId>)
        ensures
            general == self.spec_super_type(),
            general matches Some(g) ==> g.depth() < self.depth(),
    {
        match self {
            ElementTypeId::Element => None,
            ElementTypeId::HTMLElement => Some(ElementTypeId::Element),
            _ => Some(ElementTypeId::HTMLElement),
        }
    }

    /// Whether the HTML element handler is part of this category's chain.
    #[verifier::when_used_as_spec(spec_is_html)]
    pub fn is_html(self) -> (r: bool)
        ensures
            r == self.spec_is_html(),
    {
        match self {
            ElementTypeId::Element => false,
            _ => true,
        }
    }

}

impl EventTargetTypeId {
    /// The element category behind this tag, if it is the tag of an element.
    pub open spec fn spec_element_type(self) -> Option<ElementTypeId> {
        match self {
            EventTargetTypeId::Node(NodeTypeId::Element(t)) => Some(t),
            _ => None,
        }
    }

    /// The element category behind this tag, if it is the tag of an element.
    #[verifier::when_used_as_spec(spec_element_type)]
    pub fn element_type(self) -> (r: Option<ElementTypeId>)
        ensures
            r == self.spec_element_type(),
    {
        match self {
            EventTargetTypeId::Node(NodeTypeId::Element(t)) => Some(t),
            _ => None,
        }
    }

    /// The tag is that of an HTML element of any category.
    pub open spec fn spec_is_htmlelement(self) -> bool {
        self.spec_element_type() matches Some(t) && t != ElementTypeId::Element
    }

    /// Whether the tag is that of an HTML element of any category.
    #[verifier::when_used_as_spec(spec_is_htmlelement)]
    pub fn is_htmlelement(self) -> (r: bool)
        ensures
            r == self.spec_is_htmlelement(),
    {
        match self {
            EventTargetTypeId::Node(NodeTypeId::Element(ElementTypeId::Element)) => false,
            EventTargetTypeId::Node(NodeTypeId::Element(_)) => true,
            _ => false,
        }
    }

    /// The tag is that of a body element.
    pub open spec fn spec_is_htmlbodyelement(self) -> bool {
        self == EventTargetTypeId::Node(NodeTypeId::Element(ElementTypeId::HTMLBodyElement))
    }

    #[verifier::when_used_as_spec(spec_is_htmlbodyelement)]
    pub fn is_htmlbodyelement(self) -> (r: bool)
        ensures
            r == self.spec_is_htmlbodyelement(),
    {
        match self {
            EventTargetTypeId::Node(NodeTypeId::Element(ElementTypeId::HTMLBodyElement)) => true,
            _ => false,
        }
    }

    /// The tag is that of a frameset element.
    pub open spec fn spec_is_htmlframesetelement(self) -> bool {
        self == EventTargetTypeId::Node(NodeTypeId::Element(ElementTypeId::HTMLFrameSetElement))
    }

    #[verifier::when_used_as_spec(spec_is_htmlframesetelement)]
    pub fn is_htmlframesetelement(self) -> (r: bool)
        ensures
            r == self.spec_is_htmlframesetelement(),
    {
        match self {
            EventTargetTypeId::Node(NodeTypeId::Element(ElementTypeId::HTMLFrameSetElement)) => true,
            _ => false,
        }
    }

    /// The tag is that of an input element.
    pub open spec fn spec_is_htmlinputelement(self) -> bool {
        self == EventTargetTypeId::Node(NodeTypeId::Element(ElementTypeId::HTMLInputElement))
    }

    #[verifier::when_used_as_spec(spec_is_htmlinputelement)]
    pub fn is_htmlinputelement(self) -> (r: bool)
        ensures
            r == self.spec_is_htmlinputelement(),
    {
        match self {
            EventTargetTypeId::Node(NodeTypeId::Element(ElementTypeId::HTMLInputElement)) => true,
            _ => false,
        }
    }
}

/// Every handler chain starts at the root category and ends at the category
/// it was resolved for, and each handler in it is directly preceded by its
/// predecessor: a more general handler always runs before a more specific one.
pub proof fn lemma_handler_chain_order(t: ElementTypeId)
    ensures
        t.handler_chain().len() == t.depth() + 1,
        t.handler_chain().first() == ElementTypeId::Element,
        t.handler_chain().last() == t,
        forall|i: int|
            0 < i < t.handler_chain().len() ==> (#[trigger] t.handler_chain()[i]).spec_super_type()
                == Some(t.handler_chain()[i - 1]),
        forall|i: int|
            0 <= i < t.handler_chain().len() ==> (#[trigger] t.handler_chain()[i]).depth() == i,
    decreases t.depth(),
{
    match t.spec_super_type() {
        None => {},
        Some(general) => {
            lemma_handler_chain_order(general);
        },
    }
}

} // verus!
