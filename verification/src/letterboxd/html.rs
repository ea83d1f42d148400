//! Parsed web pages. The parsing and the searching are the `select` crate's;
//! this file says what the rest of the library relies on.

use select::document::Document;
use select::predicate::Attr;
use select::predicate::Class;
use select::predicate::Name;
use select::predicate::Predicate;
use vstd::prelude::*;

verus! {

#[verifier::external_type_specification]
#[verifier::external_body]
pub struct ExDocument(select::document::Document);

/// What a node of a document is: text, an element with its name and its
/// attributes in source order (each a name and a value, names without their
/// namespaces), or a comment.
pub enum HtmlData {
    Text(Seq<char>),
    Element(Seq<char>, Seq<(Seq<char>, Seq<char>)>),
    Comment(Seq<char>),
}

/// One node of a document as plain values: the places of its neighbours in
/// the document's list of nodes, and what it is.
pub struct HtmlNode {
    pub parent: Option<usize>,
    pub prev: Option<usize>,
    pub next: Option<usize>,
    pub first_child: Option<usize>,
    pub last_child: Option<usize>,
    pub data: HtmlData,
}

/// What a search in a document looks for.
pub enum Selector {
    /// An element of this name: the predicate `Name`.
    Named(Seq<char>),
    /// An element of this name and this class: `Name` and `Class`, joined by `and`.
    NamedOfClass(Seq<char>, Seq<char>),
    /// An element whose attribute of this name has this value: the predicate `Attr`.
    WithAttribute(Seq<char>, Seq<char>),
    /// An element named `inner` with an element named `outer` of class
    /// `class` among its ancestors: `Name` and `Class`, joined by `and`, then
    /// `descendant` with `Name`.
    NamedBelow { outer: Seq<char>, class: Seq<char>, inner: Seq<char> },
}

/// The nodes that a document holds, in the order of its list.
pub uninterp spec fn nodes_of(doc: Document) -> Seq<HtmlNode>;

/// The nodes of the document that `Document::from` makes of a text.
pub uninterp spec fn parsed_nodes(html: Seq<char>) -> Seq<HtmlNode>;

/// What `Document::find` yields in a document of these nodes: the places of
/// the nodes that match, in document order.
pub uninterp spec fn found_in(nodes: Seq<HtmlNode>, what: Selector) -> Seq<usize>;

/// What `Node::find` yields first on the node at `start` of a document of
/// these nodes: the place of the first match among the nodes below `start`,
/// or nothing where none matches or the document has no node at `start`.
pub uninterp spec fn first_below(nodes: Seq<HtmlNode>, start: usize, what: Selector) -> Option<
    usize,
>;

/// Whether these are the nodes of a document that the parser made.
pub open spec fn is_parsed(nodes: Seq<HtmlNode>) -> bool {
    exists|html: Seq<char>| nodes == #[trigger] parsed_nodes(html)
}

/// The value of the first attribute named `name` in a list of attributes.
pub open spec fn first_value(attrs: Seq<(Seq<char>, Seq<char>)>, name: Seq<char>) -> Option<
    Seq<char>,
>
    decreases attrs.len(),
{
    if attrs.len() == 0 {
        None
    } else if attrs[0].0 == name {
        Some(attrs[0].1)
    } else {
        first_value(attrs.drop_first(), name)
    }
}

/// The value of the attribute `name` of the node at `at`, where there is such
/// a node, it is an element, and it has the attribute.
pub open spec fn attribute(nodes: Seq<HtmlNode>, at: usize, name: Seq<char>) -> Option<Seq<char>> {
    if at < nodes.len() {
        match nodes[at as int].data {
            HtmlData::Element(_, attrs) => first_value(attrs, name),
            _ => None,
        }
    } else {
        None
    }
}

/// Calls `Document::from` on a text. The document it makes is a function of
/// the text alone; its nodes get the name `parsed_nodes`.
#[verifier::external_body]
fn parse_html(html: &str) -> (doc: Document)
    ensures
        nodes_of(doc) == parsed_nodes(html@),
{
    Document::from(html)
}

/// Calls `Document::find` with `Name(outer).and(Class(class)).descendant(Name(inner))`
/// and collects the places of the nodes it yields. On a parsed document the
/// search ends and depends on the nodes and the three names alone.
#[verifier::external_body]
fn find_nested(doc: &Document, outer: &str, class: &str, inner: &str) -> (found: Vec<
    usize,
>)
    requires
        is_parsed(nodes_of(*doc)),
    ensures
        found@ == found_in(
            nodes_of(*doc),
            Selector::NamedBelow { outer: outer@, class: class@, inner: inner@ },
        ),
{
    doc.find(Name(outer).and(Class(class)).descendant(Name(inner))).map(|node| node.index()).collect()
}

/// Calls `Node::find` with `Name(name)` on the node at `start` and takes the
/// first node it yields; nothing where the document has no node at `start`.
#[verifier::external_body]
fn find_first_named(doc: &Document, start: usize, name: &str) -> (found: Option<usize>)
    requires
        is_parsed(nodes_of(*doc)),
    ensures
        found == first_below(nodes_of(*doc), start, Selector::Named(name@)),
{
    doc.nth(start).and_then(|node| node.find(Name(name)).next()).map(|hit| hit.index())
}

/// Calls `Node::find` with `Name(name).and(Class(class))` on the node at
/// `start` and takes the first node it yields; nothing where the document has
/// no node at `start`.
#[verifier::external_body]
fn find_first_named_of_class(
    doc: &Document,
    start: usize,
    name: &str,
    class: &str,
) -> (found: Option<usize>)
    requires
        is_parsed(nodes_of(*doc)),
    ensures
        found == first_below(nodes_of(*doc), start, Selector::NamedOfClass(name@, class@)),
{
    doc.nth(start).and_then(|node| node.find(Name(name).and(Class(class))).next()).map(
        |hit| hit.index(),
    )
}

/// Calls `Node::find` with `Attr(attr, value)` on the node at `start` and
/// takes the first node it yields; nothing where the document has no node at
/// `start`.
#[verifier::external_body]
fn find_first_with_attribute(
    doc: &Document,
    start: usize,
    attr: &str,
    value: &str,
) -> (found: Option<usize>)
    requires
        is_parsed(nodes_of(*doc)),
    ensures
        found == first_below(nodes_of(*doc), start, Selector::WithAttribute(attr@, value@)),
{
    doc.nth(start).and_then(|node| node.find(Attr(attr, value)).next()).map(|hit| hit.index())
}

/// Calls `Node::attr` on the node at `at`: the value of the element's first
/// attribute of that name; nothing where the document has no node at `at`,
/// the node is no element, or it has no such attribute.
#[verifier::external_body]
fn node_attribute(doc: &Document, at: usize, name: &str) -> (value: Option<String>)
    ensures
        match value {
            Some(text) => attribute(nodes_of(*doc), at, name@) == Some(text@),
            None => attribute(nodes_of(*doc), at, name@) is None,
        },
{
    doc.nth(at).and_then(|node| node.attr(name)).map(|text| text.to_string())
}

/// A web page that was parsed.
pub struct Page {
    doc: Document,
}

impl Page {
    #[verifier::type_invariant]
    spec fn parsed(self) -> bool {
        is_parsed(nodes_of(self.doc))
    }

    /// The nodes of the page.
    pub closed spec fn view(&self) -> Seq<HtmlNode> {
        nodes_of(self.doc)
    }

    /// Parses a text as a web page. Every text is a page: the parser mends
    /// what is malformed.
    pub fn parse(html: &str) -> (page: Page)
        ensures
            page@ == parsed_nodes(html@),
    {
        Page { doc: parse_html(html) }
    }

    /// The places of the elements named `inner` that stand below an element
    /// named `outer` of class `class`, in document order.
    pub fn nested(&self, outer: &str, class: &str, inner: &str) -> (found: Vec<usize>)
        ensures
            found@ == found_in(
                self@,
                Selector::NamedBelow { outer: outer@, class: class@, inner: inner@ },
            ),
    {
        proof {
            use_type_invariant(self);
        }
        find_nested(&self.doc, outer, class, inner)
    }

    /// The place of the first element named `name` below the node at `start`.
    pub fn first_named(&self, start: usize, name: &str) -> (found: Option<usize>)
        ensures
            found == first_below(self@, start, Selector::Named(name@)),
    {
        proof {
            use_type_invariant(self);
        }
        find_first_named(&self.doc, start, name)
    }

    /// The place of the first element named `name` of class `class` below the
    /// node at `start`.
    pub fn first_named_of_class(&self, start: usize, name: &str, class: &str) -> (found: Option<
        usize,
    >)
        ensures
            found == first_below(self@, start, Selector::NamedOfClass(name@, class@)),
    {
        proof {
            use_type_invariant(self);
        }
        find_first_named_of_class(&self.doc, start, name, class)
    }

    /// The place of the first element below the node at `start` whose
    /// attribute `attr` has the value `value`.
    pub fn first_with_attribute(&self, start: usize, attr: &str, value: &str) -> (found: Option<
        usize,
    >)
        ensures
            found == first_below(self@, start, Selector::WithAttribute(attr@, value@)),
    {
        proof {
            use_type_invariant(self);
        }
        find_first_with_attribute(&self.doc, start, attr, value)
    }

    /// The value of the attribute `name` of the node at `at`.
    pub fn attribute(&self, at: usize, name: &str) -> (value: Option<String>)
        ensures
            match value {
                Some(text) => attribute(self@, at, name@) == Some(text@),
                None => attribute(self@, at, name@) is None,
            },
    {
        node_attribute(&self.doc, at, name)
    }
}

} // verus!
