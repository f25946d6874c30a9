//! The markup tree of a parsed page.

use vstd::prelude::*;
use crate::error::HelperError;

verus! {

/// One node of a markup tree.
#[derive(Debug, PartialEq, Eq)]
pub enum MarkupNode {
    /// A run of text.
    Text(String),
    /// An element with its tag name and its children in document order.
    Element { name: String, children: Vec<MarkupNode> },
    /// A comment.
    Comment(String),
}

/// A markup node as a mathematical tree.
pub enum MarkupTree {
    Text(Seq<char>),
    Element { name: Seq<char>, children: Seq<MarkupTree> },
    Comment(Seq<char>),
}

impl View for MarkupNode {
    type V = MarkupTree;

    open spec fn view(&self) -> MarkupTree
        decreases self,
    {
        match self {
            MarkupNode::Text(text) => MarkupTree::Text(text@),
            MarkupNode::Element { name, children } => MarkupTree::Element {
                name: name@,
                children: Seq::new(
                    children@.len(),
                    |i: int|
                        if 0 <= i < children@.len() {
                            children@[i].view()
                        } else {
                            MarkupTree::Text(Seq::empty())
                        },
                ),
            },
            MarkupNode::Comment(text) => MarkupTree::Comment(text@),
        }
    }
}

impl DeepView for MarkupNode {
    type V = MarkupTree;

    open spec fn deep_view(&self) -> MarkupTree {
        self@
    }
}

/// `html_parser::Node`, a node of the tree that the parser builds.
#[verifier::external_type_specification]
#[verifier::external_body]
pub struct ExNode(html_parser::Node);

/// `html_parser::Error`, the parser's error.
#[verifier::external_type_specification]
#[verifier::external_body]
pub struct ExParseError(html_parser::Error);

/// The top-level nodes that `html_parser::Dom::parse` finds in `html`, as
/// trees in document order; `None` where it reports an error.
pub uninterp spec fn parsed_markup(html: Seq<char>) -> Option<Seq<MarkupTree>>;

/// The tree that a parser node holds: its kind, its text or tag name, and
/// its children in order.
pub uninterp spec fn node_tree(node: html_parser::Node) -> MarkupTree;

/// Calls `html_parser::Dom::parse` and hands out the document's top-level
/// nodes. The parser's result depends on the text alone: an error means that
/// the text has no parse, and the nodes of a success are the parse of that
/// text.
#[verifier::external_body]
fn parse_roots(html: &str) -> (r: Result<Vec<html_parser::Node>, html_parser::Error>)
    ensures
        match r {
            Ok(roots) => parsed_markup(html@) == Some(
                Seq::new(roots@.len(), |i: int| node_tree(roots@[i])),
            ),
            Err(_) => parsed_markup(html@) is None,
        },
{
    html_parser::Dom::parse(html).map(|dom| dom.children)
}

/// Copies a parser node into a `MarkupNode`, variant by variant: a text or a
/// comment keeps its string, an element keeps its tag name and its children,
/// each copied the same way.
#[verifier::external_body]
fn markup_of(node: &html_parser::Node) -> (copy: MarkupNode)
    ensures
        copy@ == node_tree(*node),
{
    match node {
        html_parser::Node::Text(text) => MarkupNode::Text(text.clone()),
        html_parser::Node::Element(element) => MarkupNode::Element {
            name: element.name.clone(),
            children: element.children.iter().map(markup_of).collect(),
        },
        html_parser::Node::Comment(text) => MarkupNode::Comment(text.clone()),
    }
}

/// Parses the text of a problem page into its top-level markup nodes.
pub fn get_luogu_problem_content(page: &str) -> (r: Result<Vec<MarkupNode>, HelperError>)
    ensures
        match parsed_markup(page@) {
            Some(trees) => r matches Ok(nodes) && nodes.deep_view() == trees,
            None => r matches Err(HelperError::ParseError),
        },
{
    match parse_roots(page) {
        Err(_) => Err(HelperError::ParseError),
        Ok(roots) => {
            let mut nodes: Vec<MarkupNode> = Vec::new();
            let mut i: usize = 0;
            while i < roots.len()
                invariant
                    i <= roots.len(),
                    nodes@.len() == i,
                    forall|k: int| 0 <= k < i ==> (#[trigger] nodes@[k])@ == node_tree(roots@[k]),
                decreases roots.len() - i,
            {
                nodes.push(markup_of(&roots[i]));
                i += 1;
            }
            Ok(nodes)
        },
    }
}

} // verus!
