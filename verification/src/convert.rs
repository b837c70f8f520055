use vstd::prelude::*;

use crate::float::{float_bits_of, real_bits, real_to_bits};
use crate::node::{node_model, Node, NodeSpec};
use crate::value::{is_nan_bits, value_model, DynamicValue, ValueSpec, NAN_BITS};

verus! {

/// What one node converts to. Scalars map one to one; a real scalar's text is
/// coerced to floating-point bits with a not-a-number fallback; arrays and
/// hashes convert their children recursively in source order; aliases, nulls
/// and malformed nodes all become the null value.
pub open spec fn convert_spec(n: NodeSpec) -> ValueSpec
    decreases n,
{
    match n {
        NodeSpec::Real(t) => ValueSpec::Float64(real_bits(t)),
        NodeSpec::Integer(v) => ValueSpec::Int64(v),
        NodeSpec::Str(s) => ValueSpec::Str(s),
        NodeSpec::Boolean(b) => ValueSpec::Bool(b),
        NodeSpec::Array(items) => ValueSpec::List(
            Seq::new(
                items.len(),
                |i: int|
                    if 0 <= i < items.len() {
                        convert_spec(items[i])
                    } else {
                        arbitrary()
                    },
            ),
        ),
        NodeSpec::Hash(entries) => ValueSpec::Dict(
            Seq::new(
                entries.len(),
                |i: int|
                    if 0 <= i < entries.len() {
                        (convert_spec(entries[i].0), convert_spec(entries[i].1))
                    } else {
                        arbitrary()
                    },
            ),
        ),
        NodeSpec::Alias(_) => ValueSpec::Null,
        NodeSpec::Null => ValueSpec::Null,
        NodeSpec::BadValue => ValueSpec::Null,
    }
}

/// What a document sequence converts to: each document in order.
pub open spec fn convert_docs_spec(docs: Seq<NodeSpec>) -> Seq<ValueSpec> {
    docs.map_values(|n: NodeSpec| convert_spec(n))
}

/// Convert one node to its generic value. Pure and total: malformed input
/// degrades to null, it never fails.
#[verifier::loop_isolation(false)]
pub fn convert_node(n: &Node) -> (r: DynamicValue)
    ensures
        r.deep_view() == convert_spec(n.deep_view()),
    decreases n,
{
    match n {
        Node::Real(t) => DynamicValue::Float64(real_to_bits(t.as_str())),
        Node::Integer(v) => DynamicValue::Int64(*v),
        Node::Str(s) => DynamicValue::Str(s.clone()),
        Node::Boolean(b) => DynamicValue::Bool(*b),
        Node::Array(items) => {
            let mut out: Vec<DynamicValue> = Vec::new();
            let mut i: usize = 0;
            while i < items.len()
                invariant
                    i <= items@.len(),
                    out@.len() == i,
                    forall|j: int|
                        0 <= j < i ==> out@[j].deep_view() == convert_spec(
                            items@[j].deep_view(),
                        ),
                decreases items@.len() - i,
            {
                let v = convert_node(&items[i]);
                out.push(v);
                i = i + 1;
            }
            proof {
                let lhs = value_model(DynamicValue::List(out))->List_0;
                let rhs = convert_spec(node_model(*n))->List_0;
                assert forall|j: int| 0 <= j < lhs.len() implies lhs[j] == rhs[j] by {
                    assert(lhs[j] == value_model(out@[j]));
                    assert(rhs[j] == convert_spec(node_model(items@[j])));
                }
                assert(lhs =~= rhs);
            }
            DynamicValue::List(out)
        },
        Node::Hash(entries) => {
            let mut out: Vec<(DynamicValue, DynamicValue)> = Vec::new();
            let mut i: usize = 0;
            while i < entries.len()
                invariant
                    i <= entries@.len(),
                    out@.len() == i,
                    forall|j: int|
                        0 <= j < i ==> out@[j].0.deep_view() == convert_spec(
                            entries@[j].0.deep_view(),
                        ) && out@[j].1.deep_view() == convert_spec(entries@[j].1.deep_view()),
                decreases entries@.len() - i,
            {
                let k = convert_node(&entries[i].0);
                let v = convert_node(&entries[i].1);
                out.push((k, v));
                i = i + 1;
            }
            proof {
                let lhs = value_model(DynamicValue::Dict(out))->Dict_0;
                let rhs = convert_spec(node_model(*n))->Dict_0;
                assert forall|j: int| 0 <= j < lhs.len() implies lhs[j] == rhs[j] by {
                    assert(lhs[j] == (value_model(out@[j].0), value_model(out@[j].1)));
                    assert(rhs[j] == (
                        convert_spec(node_model(entries@[j].0)),
                        convert_spec(node_model(entries@[j].1)),
                    ));
                }
                assert(lhs =~= rhs);
            }
            DynamicValue::Dict(out)
        },
        Node::Alias(_) => DynamicValue::Null,
        Node::Null => DynamicValue::Null,
        Node::BadValue => DynamicValue::Null,
    }
}

/// Convert a full document sequence, one value per document, in order.
#[verifier::loop_isolation(false)]
pub fn convert_documents(docs: &Vec<Node>) -> (r: Vec<DynamicValue>)
    ensures
        r.deep_view() == convert_docs_spec(docs.deep_view()),
{
    let mut out: Vec<DynamicValue> = Vec::new();
    let mut i: usize = 0;
    while i < docs.len()
        invariant
            i <= docs@.len(),
            out@.len() == i,
            forall|j: int|
                0 <= j < i ==> out@[j].deep_view() == convert_spec(docs@[j].deep_view()),
        decreases docs@.len() - i,
    {
        let v = convert_node(&docs[i]);
        out.push(v);
        i = i + 1;
    }
    proof {
        assert(out.deep_view() =~= convert_docs_spec(docs.deep_view()));
    }
    out
}

/// Law: converting an integer node yields exactly that 64-bit integer, for
/// every representable value.
pub proof fn lemma_integer_converts_exactly(v: i64)
    ensures
        convert_spec(NodeSpec::Integer(v)) == ValueSpec::Int64(v),
{
}

/// Law: a real node whose text does not parse as a floating-point literal
/// converts to the canonical quiet not-a-number value, not an error.
pub proof fn lemma_unparsable_real_converts_to_nan(t: Seq<char>)
    requires
        t.len() == 0 || float_bits_of(t) is None,
    ensures
        convert_spec(NodeSpec::Real(t)) == ValueSpec::Float64(NAN_BITS),
        is_nan_bits(NAN_BITS),
{
    crate::float::lemma_unparsable_text_yields_nan(t);
}

/// Law: array conversion keeps length and order, converting each item in
/// place.
pub proof fn lemma_array_preserves_order(items: Seq<NodeSpec>, i: int)
    requires
        0 <= i < items.len(),
    ensures
        convert_spec(NodeSpec::Array(items)) matches ValueSpec::List(out) && out.len()
            == items.len() && out[i] == convert_spec(items[i]),
{
}

/// Law: hash conversion keeps the entries in insertion order, converting each
/// key and each value in place; it never sorts or deduplicates.
pub proof fn lemma_hash_preserves_order(entries: Seq<(NodeSpec, NodeSpec)>, i: int)
    requires
        0 <= i < entries.len(),
    ensures
        convert_spec(NodeSpec::Hash(entries)) matches ValueSpec::Dict(out) && out.len()
            == entries.len() && out[i] == (
        convert_spec(entries[i].0),
        convert_spec(entries[i].1),
        ),
{
}

/// Law: a malformed node converts to null, and inside an array it degrades
/// alone: every sibling still converts exactly as it would on its own.
pub proof fn lemma_bad_value_degrades(items: Seq<NodeSpec>, i: int)
    requires
        0 <= i < items.len(),
        items[i] == NodeSpec::BadValue,
    ensures
        convert_spec(NodeSpec::BadValue) == ValueSpec::Null,
        convert_spec(NodeSpec::Array(items)) matches ValueSpec::List(out) && out.len()
            == items.len() && out[i] == ValueSpec::Null && (forall|j: int|
            0 <= j < items.len() ==> out[j] == convert_spec(items[j])),
{
}

/// Law: document conversion yields one value per document, in source order.
pub proof fn lemma_documents_in_order(docs: Seq<NodeSpec>, i: int)
    requires
        0 <= i < docs.len(),
    ensures
        convert_docs_spec(docs).len() == docs.len(),
        convert_docs_spec(docs)[i] == convert_spec(docs[i]),
{
}

} // verus!
