use vstd::prelude::*;

use crate::convert::{convert_docs_spec, convert_documents};
use crate::node::{node_model, Node, NodeSpec};
use crate::value::DocumentSet;

verus! {

/// Declares the parser's `yaml_rust2::Yaml` tree type so that signatures here
/// can carry it; its values stay opaque and are read only by trusted code.
#[verifier::external_type_specification]
#[verifier::external_body]
pub struct ExYaml(yaml_rust2::Yaml);

/// The node tree a parsed `yaml_rust2::Yaml` value stands for: the same
/// variants, one for one, with children in the same order.
pub uninterp spec fn yaml_model(y: yaml_rust2::Yaml) -> NodeSpec;

/// What parsing a YAML text yields: one node per `---`-separated document, in
/// source order, or the scanner's error message. Parsing is a function of the
/// text alone.
pub uninterp spec fn parse_outcome(s: Seq<char>) -> Result<Seq<NodeSpec>, Seq<char>>;

/// Relies on yaml_rust2::YamlLoader::load_from_str: parses YAML text into one
/// `Yaml` tree per document, in source order; an empty text holds no
/// documents; on a syntax error nothing is returned but the scanner's
/// message.
#[verifier::external_body]
fn load_yaml_documents(s: &str) -> (r: Result<Vec<yaml_rust2::Yaml>, String>)
    ensures
        r matches Ok(docs) ==> parse_outcome(s@) matches Ok(m) && m.len() == docs@.len() && (
        forall|i: int| 0 <= i < m.len() ==> m[i] == yaml_model(docs@[i])),
        r matches Err(msg) ==> parse_outcome(s@) matches Err(m) && m == msg@,
        r matches Err(msg) ==> s@.len() > 0,
        r matches Ok(docs) ==> (s@.len() == 0 ==> docs@.len() == 0),
{
    match yaml_rust2::YamlLoader::load_from_str(s) {
        Ok(docs) => Ok(docs),
        Err(e) => Err(e.to_string()),
    }
}

/// Relies on the shape of yaml_rust2::Yaml: each variant is carried over,
/// one for one, onto the library's own node type, children in order.
#[verifier::external_body]
fn yaml_to_node(y: &yaml_rust2::Yaml) -> (r: Node)
    ensures
        node_model(r) == yaml_model(*y),
{
    match y {
        yaml_rust2::Yaml::Real(t) => Node::Real(t.clone()),
        yaml_rust2::Yaml::Integer(v) => Node::Integer(*v),
        yaml_rust2::Yaml::String(s) => Node::Str(s.clone()),
        yaml_rust2::Yaml::Boolean(b) => Node::Boolean(*b),
        yaml_rust2::Yaml::Array(items) => Node::Array(items.iter().map(yaml_to_node).collect()),
        yaml_rust2::Yaml::Hash(entries) => Node::Hash(
            entries.iter().map(|(k, v)| (yaml_to_node(k), yaml_to_node(v))).collect(),
        ),
        yaml_rust2::Yaml::Alias(a) => Node::Alias(*a),
        yaml_rust2::Yaml::Null => Node::Null,
        yaml_rust2::Yaml::BadValue => Node::BadValue,
    }
}

/// Parse YAML text into the library's document nodes, in source order; on a
/// syntax error, return the scanner's message instead.
#[verifier::loop_isolation(false)]
pub fn parse_documents(s: &str) -> (r: Result<Vec<Node>, String>)
    ensures
        match r {
            Ok(nodes) => parse_outcome(s@) matches Ok(m) && nodes.deep_view() == m,
            Err(msg) => parse_outcome(s@) matches Err(m) && m == msg@,
        },
        s@.len() == 0 ==> (r matches Ok(nodes) && nodes@.len() == 0),
{
    match load_yaml_documents(s) {
        Ok(docs) => {
            let mut nodes: Vec<Node> = Vec::new();
            let mut i: usize = 0;
            while i < docs.len()
                invariant
                    i <= docs@.len(),
                    nodes@.len() == i,
                    forall|j: int| 0 <= j < i ==> node_model(nodes@[j]) == yaml_model(docs@[j]),
                decreases docs@.len() - i,
            {
                let n = yaml_to_node(&docs[i]);
                nodes.push(n);
                i = i + 1;
            }
            proof {
                assert(nodes.deep_view() =~= parse_outcome(s@)->Ok_0);
            }
            Ok(nodes)
        },
        Err(msg) => Err(msg),
    }
}

/// Why a call failed: the source is not valid YAML, or the destination could
/// not hold a produced value. Each carries a human-readable description.
#[derive(Debug, PartialEq, Eq)]
pub enum LoadError {
    Parse(String),
    Conversion(String),
}

impl LoadError {
    /// The human-readable description the error carries.
    pub fn message(&self) -> (r: &str)
        ensures
            match self {
                LoadError::Parse(m) => r@ == m@,
                LoadError::Conversion(m) => r@ == m@,
            },
    {
        match self {
            LoadError::Parse(m) => m.as_str(),
            LoadError::Conversion(m) => m.as_str(),
        }
    }
}

/// Parse YAML source text and convert every document, in source order.
///
/// On success the set holds exactly one converted value per document in the
/// source; an empty text yields an empty set. On a syntax error the call
/// fails with the parse error and returns no partial result.
pub fn loads(s: &str) -> (r: Result<DocumentSet, LoadError>)
    ensures
        match parse_outcome(s@) {
            Ok(m) => r matches Ok(ds) && ds@ == convert_docs_spec(m),
            Err(msg) => r matches Err(e) && e matches LoadError::Parse(pm) && pm@ == msg,
        },
        s@.len() == 0 ==> (r matches Ok(ds) && ds@.len() == 0),
{
    match parse_documents(s) {
        Ok(nodes) => {
            let docs = convert_documents(&nodes);
            Ok(DocumentSet { docs })
        },
        Err(msg) => Err(LoadError::Parse(msg)),
    }
}

} // verus!
