//! The part of `xmltree` that the dlclist logic uses, with the facts that
//! its source shows.

use vstd::prelude::*;
use xmltree::{Element, EmitterConfig, XMLNode};

verus! {

#[verifier::external_type_specification]
#[verifier::external_body]
pub struct ExElement(Element);

#[verifier::external_type_specification]
#[verifier::external_body]
pub struct ExXmlParseError(xmltree::ParseError);

#[verifier::external_type_specification]
#[verifier::external_body]
pub struct ExXmlWriteError(xmltree::Error);

/// The contents of an `xmltree` element, field by field: its name, prefix,
/// namespace, namespace declarations, attributes and children.
pub struct XmlElementModel {
    pub name: Seq<char>,
    pub prefix: Option<Seq<char>>,
    pub namespace: Option<Seq<char>>,
    pub namespaces: Option<Map<Seq<char>, Seq<char>>>,
    pub attributes: Map<Seq<char>, Seq<char>>,
    pub children: Seq<XmlNodeModel>,
}

/// The contents of an `xmltree` node, variant by variant.
pub enum XmlNodeModel {
    Element(XmlElementModel),
    Comment(Seq<char>),
    CData(Seq<char>),
    Text(Seq<char>),
    ProcessingInstruction(Seq<char>, Option<Seq<char>>),
}

/// What an `Element` holds (all its fields, the attributes as a map).
pub uninterp spec fn element_model(e: Element) -> XmlElementModel;

/// The element `m` with its children replaced by `children`.
pub open spec fn with_children(m: XmlElementModel, children: Seq<XmlNodeModel>) -> XmlElementModel {
    XmlElementModel { children, ..m }
}

/// An element with a name and children, and nothing else: no prefix,
/// namespace, namespace declarations or attributes.
pub open spec fn plain_element(name: Seq<char>, children: Seq<XmlNodeModel>) -> XmlElementModel {
    XmlElementModel {
        name,
        prefix: None,
        namespace: None,
        namespaces: None,
        attributes: Map::empty(),
        children,
    }
}

/// The element a node holds (meaningful where the node is an element).
pub open spec fn node_element(n: XmlNodeModel) -> XmlElementModel {
    n->Element_0
}

/// The root element that `Element::parse` reads from `bytes`, or `None` where
/// it fails.
pub uninterp spec fn parsed_root(bytes: Seq<u8>) -> Option<XmlElementModel>;

/// The bytes that `Element::write_with_config` writes for an element with the
/// settings `perform_indent`, `indent` and `declaration` (the rest as
/// `EmitterConfig::new` sets them), or `None` where the emitter reports an
/// error.
pub uninterp spec fn written_xml(
    e: XmlElementModel,
    perform_indent: bool,
    indent: Seq<char>,
    declaration: bool,
) -> Option<Seq<u8>>;

/// The settings of the XML writer that this library chooses.
pub struct WriterSettings {
    pub perform_indent: bool,
    pub indent: String,
    pub declaration: bool,
}

/// `n` is an element named `name`.
pub open spec fn is_element_named(n: XmlNodeModel, name: Seq<char>) -> bool {
    n matches XmlNodeModel::Element(m) && m.name == name
}

/// `k` is the position of the first element named `name` among `nodes`.
pub open spec fn is_first_named(nodes: Seq<XmlNodeModel>, name: Seq<char>, k: int) -> bool {
    &&& 0 <= k < nodes.len()
    &&& is_element_named(nodes[k], name)
    &&& forall|j: int| 0 <= j < k ==> !is_element_named(#[trigger] nodes[j], name)
}

/// Some element among `nodes` is named `name`.
pub open spec fn has_child_named(nodes: Seq<XmlNodeModel>, name: Seq<char>) -> bool {
    exists|k: int| 0 <= k < nodes.len() && is_element_named(#[trigger] nodes[k], name)
}

/// The position of the first element named `name` among `nodes`.
pub open spec fn first_named(nodes: Seq<XmlNodeModel>, name: Seq<char>) -> int {
    choose|k: int| is_first_named(nodes, name, k)
}

/// Where some element among `nodes[lo..]` is named `name` and none before
/// `lo` is, the first one exists.
proof fn lemma_first_named_from(nodes: Seq<XmlNodeModel>, name: Seq<char>, lo: int)
    requires
        0 <= lo <= nodes.len(),
        forall|j: int| 0 <= j < lo ==> !is_element_named(#[trigger] nodes[j], name),
        exists|k: int| lo <= k < nodes.len() && is_element_named(#[trigger] nodes[k], name),
    ensures
        exists|k: int| is_first_named(nodes, name, k),
    decreases nodes.len() - lo,
{
    if is_element_named(nodes[lo], name) {
        assert(is_first_named(nodes, name, lo));
    } else {
        lemma_first_named_from(nodes, name, lo + 1);
    }
}

/// Where some element is named `name`, the first one exists.
pub proof fn lemma_first_named(nodes: Seq<XmlNodeModel>, name: Seq<char>)
    requires
        has_child_named(nodes, name),
    ensures
        is_first_named(nodes, name, first_named(nodes, name)),
{
    lemma_first_named_from(nodes, name, 0);
}

/// The first element named `name` is unique.
pub proof fn lemma_first_named_unique(nodes: Seq<XmlNodeModel>, name: Seq<char>, k: int)
    requires
        is_first_named(nodes, name, k),
    ensures
        first_named(nodes, name) == k,
{
    let c = first_named(nodes, name);
    assert(is_first_named(nodes, name, c));
    if c < k {
        assert(!is_element_named(nodes[c], name));
    } else if c > k {
        assert(!is_element_named(nodes[k], name));
    }
}

/// `Element::parse`: reads the first root element of an XML document.
/// Claimed: success and the element read depend on the bytes alone, as the
/// name `parsed_root` says (with sorted attribute maps nothing depends on a
/// hash seed). A document without a root element is an error of the
/// underlying parser, so the call returns rather than panics.
#[verifier::external_body]
pub(crate) fn parse_element(bytes: &[u8]) -> (r: Result<Element, xmltree::ParseError>)
    ensures
        r is Ok <==> parsed_root(bytes@) is Some,
        r matches Ok(e) ==> parsed_root(bytes@) == Some(element_model(e)),
{
    Element::parse(bytes)
}

/// `Element::new`: an element with the given name and every other field
/// empty.
#[verifier::external_body]
pub(crate) fn new_element(name: &str) -> (e: Element)
    ensures
        element_model(e) == plain_element(name@, Seq::empty()),
{
    Element::new(name)
}

/// Pushes a text node onto the `children` of `parent`.
#[verifier::external_body]
pub(crate) fn push_text_node(parent: &mut Element, text: String)
    ensures
        element_model(*final(parent)) == with_children(
            element_model(*old(parent)),
            element_model(*old(parent)).children.push(XmlNodeModel::Text(text@)),
        ),
{
    parent.children.push(XMLNode::Text(text));
}

/// Pushes an element node onto the `children` of `parent`.
#[verifier::external_body]
pub(crate) fn push_element_node(parent: &mut Element, child: Element)
    ensures
        element_model(*final(parent)) == with_children(
            element_model(*old(parent)),
            element_model(*old(parent)).children.push(XmlNodeModel::Element(element_model(child))),
        ),
{
    parent.children.push(XMLNode::Element(child));
}

/// `Element::get_child` with a name: the first child element with that name.
#[verifier::external_body]
pub(crate) fn child_named<'a>(e: &'a Element, name: &str) -> (r: Option<&'a Element>)
    ensures
        r is Some <==> has_child_named(element_model(*e).children, name@),
        r matches Some(c) ==> XmlNodeModel::Element(element_model(*c)) == element_model(
            *e,
        ).children[first_named(element_model(*e).children, name@)],
{
    e.get_child(name)
}

/// `Element::get_mut_child` with a name, whose `children` are then replaced
/// by `nodes`, each as an element node; the child keeps its other fields.
#[verifier::external_body]
pub(crate) fn replace_children_of_child(e: &mut Element, name: &str, nodes: Vec<Element>)
    requires
        has_child_named(element_model(*old(e)).children, name@),
    ensures
        ({
            let m = element_model(*old(e));
            let k = first_named(m.children, name@);
            element_model(*final(e)) == with_children(
                m,
                m.children.update(
                    k,
                    XmlNodeModel::Element(
                        with_children(
                            node_element(m.children[k]),
                            nodes@.map_values(|c: Element| XmlNodeModel::Element(element_model(c))),
                        ),
                    ),
                ),
            )
        }),
{
    let child = e.get_mut_child(name).unwrap();
    child.children = nodes.into_iter().map(XMLNode::Element).collect();
}

/// `Element::write_with_config` into a byte buffer, with an `EmitterConfig`
/// built from `settings`. Claimed: the buffer is only appended to, and what
/// is appended on success, and whether the emitter fails, depend on the
/// element and the settings alone, as the name `written_xml` says (the
/// attribute maps are sorted).
#[verifier::external_body]
pub(crate) fn write_element(e: &Element, out: &mut Vec<u8>, settings: &WriterSettings) -> (r: Result<
    (),
    xmltree::Error,
>)
    ensures
        final(out)@.len() >= old(out)@.len(),
        final(out)@.take(old(out)@.len() as int) == old(out)@,
        r is Ok ==> written_xml(
            element_model(*e),
            settings.perform_indent,
            settings.indent@,
            settings.declaration,
        ) == Some(final(out)@.skip(old(out)@.len() as int)),
        r is Err ==> written_xml(
            element_model(*e),
            settings.perform_indent,
            settings.indent@,
            settings.declaration,
        ) is None,
{
    let config = EmitterConfig::new()
        .perform_indent(settings.perform_indent)
        .indent_string(settings.indent.clone())
        .write_document_declaration(settings.declaration);
    e.write_with_config(out, config)
}

/// The `Display` text of an emitter error.
#[verifier::external_body]
pub(crate) fn write_error_text(e: &xmltree::Error) -> String {
    format!("{e}")
}

} // verus!
