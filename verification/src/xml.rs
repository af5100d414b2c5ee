//! Style documents as XML trees: the text of a style is parsed into its
//! root element, with each element's name, attributes and children.

use vstd::prelude::*;
use crate::text::{opt_view, to_owned_string};

verus! {

/// An XML element: its local name, its attributes in document order and
/// its child nodes.
#[derive(Debug)]
pub struct XmlElement {
    pub name: String,
    pub attributes: Vec<(String, String)>,
    pub children: Vec<XmlChild>,
}

/// A child node of an element.
#[derive(Debug)]
pub enum XmlChild {
    Element(XmlElement),
    Text(String),
    Comment(String),
    /// A processing instruction: its target and value.
    Instruction(String, Option<String>),
}

/// An element by its contents.
pub struct XmlElementView {
    pub name: Seq<char>,
    pub attributes: Seq<(Seq<char>, Seq<char>)>,
    pub children: Seq<XmlChildView>,
}

/// A child node by its contents.
pub enum XmlChildView {
    Element(XmlElementView),
    Text(Seq<char>),
    Comment(Seq<char>),
    Instruction(Seq<char>, Option<Seq<char>>),
}

/// The contents of an element.
pub open spec fn xml_view(e: XmlElement) -> XmlElementView
    decreases e, 2nat,
{
    XmlElementView {
        name: e.name@,
        attributes: e.attributes@.map_values(|a: (String, String)| (a.0@, a.1@)),
        children: children_view(e.children@),
    }
}

/// The contents of child nodes, in order.
pub open spec fn children_view(s: Seq<XmlChild>) -> Seq<XmlChildView>
    decreases s, 1nat,
{
    if s.len() == 0 {
        Seq::empty()
    } else {
        children_view(s.drop_last()).push(child_view(s.last()))
    }
}

/// The contents of a child node.
pub open spec fn child_view(c: XmlChild) -> XmlChildView
    decreases c, 0nat,
{
    match c {
        XmlChild::Element(e) => XmlChildView::Element(xml_view(c->Element_0)),
        XmlChild::Text(t) => XmlChildView::Text(t@),
        XmlChild::Comment(t) => XmlChildView::Comment(t@),
        XmlChild::Instruction(t, v) => XmlChildView::Instruction(t@, opt_view(v)),
    }
}

impl View for XmlElement {
    type V = XmlElementView;

    open spec fn view(&self) -> XmlElementView {
        xml_view(*self)
    }
}

/// An optional element by its contents.
pub open spec fn opt_xml_view(r: Option<XmlElement>) -> Option<XmlElementView> {
    match r {
        Some(e) => Some(e@),
        None => None,
    }
}

/// The root element that the XML parser reads from a text, if the text is
/// a well-formed document.
pub uninterp spec fn xml_tree(text: Seq<char>) -> Option<XmlElementView>;

#[verifier::external_type_specification]
#[verifier::external_body]
pub struct ExXmlNode<'a, 'input: 'a>(roxmltree::Node<'a, 'input>);

/// An element node of a parsed document as an `XmlElement` (its local
/// name, its attributes' local names and values, its children); nothing is
/// claimed of the result.
#[verifier::external_body]
fn element_of(node: roxmltree::Node<'_, '_>) -> XmlElement {
    XmlElement {
        name: node.tag_name().name().to_string(),
        attributes: node.attributes().map(|a| (a.name().to_string(), a.value().to_string())).collect(),
        children: node.children().map(|c| child_of(c)).collect(),
    }
}

/// A child node of a parsed document, by its kind (the document root is
/// never a child); nothing is claimed of the result.
#[verifier::external_body]
fn child_of(node: roxmltree::Node<'_, '_>) -> XmlChild {
    match node.node_type() {
        roxmltree::NodeType::Root | roxmltree::NodeType::Element => XmlChild::Element(element_of(node)),
        roxmltree::NodeType::Text => XmlChild::Text(node.text().unwrap_or_default().to_string()),
        roxmltree::NodeType::Comment => XmlChild::Comment(node.text().unwrap_or_default().to_string()),
        roxmltree::NodeType::PI => XmlChild::Instruction(
            node.pi().map(|p| p.target).unwrap_or_default().to_string(),
            node.pi().and_then(|p| p.value).map(|v| v.to_string()),
        ),
    }
}

/// Parses `text` with `roxmltree::Document::parse` and gives its root
/// element (`Document::root_element`); none when the parser refuses the
/// text. The result is named `xml_tree` of the text: the parser's result
/// depends on the text alone.
#[verifier::external_body]
fn parse_xml(text: &str) -> (r: Option<XmlElement>)
    ensures
        opt_xml_view(r) == xml_tree(text@),
{
    roxmltree::Document::parse(text).ok().map(|d| element_of(d.root_element()))
}

/// The message for a style text that is no well-formed XML document.
pub open spec fn not_xml_message() -> Seq<char> {
    "the style is not a well-formed XML document"@
}

/// Parses the text of a style into its root element: `Ok` exactly when the
/// text is a well-formed XML document (`xml_tree`), with that element.
pub fn parse_style_document(text: &str) -> (r: Result<XmlElement, String>)
    ensures
        r is Ok <==> xml_tree(text@) is Some,
        r matches Ok(e) ==> e@ == xml_tree(text@).unwrap(),
        r matches Err(m) ==> m@ == not_xml_message(),
{
    match parse_xml(text) {
        Some(e) => Ok(e),
        None => Err(to_owned_string("the style is not a well-formed XML document")),
    }
}

} // verus!
