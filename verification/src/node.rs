use vstd::prelude::*;

verus! {

/// Mathematical model of a parsed YAML document node: the same tree shape as
/// `Node`, with strings as character sequences and vectors as sequences.
#[verifier::ext_equal]
pub enum NodeSpec {
    Real(Seq<char>),
    Integer(i64),
    Str(Seq<char>),
    Boolean(bool),
    Array(Seq<NodeSpec>),
    Hash(Seq<(NodeSpec, NodeSpec)>),
    Alias(usize),
    Null,
    BadValue,
}

/// One parsed YAML node, as the parser hands it over.
///
/// `Real` keeps the scalar's source text: the floating-point coercion is the
/// converter's job, not the parser's. `Hash` keeps its entries in source
/// order; keys may be any node and are not deduplicated here. `Alias` is never
/// resolved, and `BadValue` marks a node the parser could not interpret.
#[derive(Debug, PartialEq, Eq)]
pub enum Node {
    Real(String),
    Integer(i64),
    Str(String),
    Boolean(bool),
    Array(Vec<Node>),
    Hash(Vec<(Node, Node)>),
    Alias(usize),
    Null,
    BadValue,
}

/// The model a node stands for.
pub open spec fn node_model(n: Node) -> NodeSpec
    decreases n,
{
    match n {
        Node::Real(t) => NodeSpec::Real(t@),
        Node::Integer(v) => NodeSpec::Integer(v),
        Node::Str(s) => NodeSpec::Str(s@),
        Node::Boolean(b) => NodeSpec::Boolean(b),
        Node::Array(items) => NodeSpec::Array(
            Seq::new(
                items@.len(),
                |i: int|
                    if 0 <= i < items@.len() {
                        node_model(items@[i])
                    } else {
                        arbitrary()
                    },
            ),
        ),
        Node::Hash(entries) => NodeSpec::Hash(
            Seq::new(
                entries@.len(),
                |i: int|
                    if 0 <= i < entries@.len() {
                        (node_model(entries@[i].0), node_model(entries@[i].1))
                    } else {
                        arbitrary()
                    },
            ),
        ),
        Node::Alias(a) => NodeSpec::Alias(a),
        Node::Null => NodeSpec::Null,
        Node::BadValue => NodeSpec::BadValue,
    }
}

impl DeepView for Node {
    type V = NodeSpec;

    open spec fn deep_view(&self) -> NodeSpec {
        node_model(*self)
    }
}

} // verus!
