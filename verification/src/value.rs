use vstd::prelude::*;

verus! {

/// Mathematical model of a converted value: the same tree shape as
/// `DynamicValue`, with strings as character sequences and vectors as
/// sequences.
#[verifier::ext_equal]
pub enum ValueSpec {
    Float64(u64),
    Int64(i64),
    Str(Seq<char>),
    Bool(bool),
    Null,
    List(Seq<ValueSpec>),
    Dict(Seq<(ValueSpec, ValueSpec)>),
}

/// The generic, host-agnostic value a YAML node converts to.
///
/// `Float64` carries the IEEE-754 bit pattern of the 64-bit floating-point
/// value, so that the tree stays free of machine floats; a host bridge turns
/// the bits into its native float. `List` keeps item order, and `Dict` keeps
/// its entries in insertion order; keys may be any value.
#[derive(Debug, PartialEq, Eq)]
pub enum DynamicValue {
    Float64(u64),
    Int64(i64),
    Str(String),
    Bool(bool),
    Null,
    List(Vec<DynamicValue>),
    Dict(Vec<(DynamicValue, DynamicValue)>),
}

/// The model a converted value stands for.
pub open spec fn value_model(v: DynamicValue) -> ValueSpec
    decreases v,
{
    match v {
        DynamicValue::Float64(b) => ValueSpec::Float64(b),
        DynamicValue::Int64(n) => ValueSpec::Int64(n),
        DynamicValue::Str(s) => ValueSpec::Str(s@),
        DynamicValue::Bool(b) => ValueSpec::Bool(b),
        DynamicValue::Null => ValueSpec::Null,
        DynamicValue::List(items) => ValueSpec::List(
            Seq::new(
                items@.len(),
                |i: int|
                    if 0 <= i < items@.len() {
                        value_model(items@[i])
                    } else {
                        arbitrary()
                    },
            ),
        ),
        DynamicValue::Dict(entries) => ValueSpec::Dict(
            Seq::new(
                entries@.len(),
                |i: int|
                    if 0 <= i < entries@.len() {
                        (value_model(entries@[i].0), value_model(entries@[i].1))
                    } else {
                        arbitrary()
                    },
            ),
        ),
    }
}

impl DeepView for DynamicValue {
    type V = ValueSpec;

    open spec fn deep_view(&self) -> ValueSpec {
        value_model(*self)
    }
}

/// The bit pattern of the canonical quiet not-a-number value: the one the
/// converter produces for a real scalar whose text does not parse.
pub const NAN_BITS: u64 = 0x7ff8_0000_0000_0000;

/// Whether a 64-bit pattern encodes an IEEE-754 not-a-number value:
/// exponent all ones and a non-zero significand.
pub open spec fn is_nan_bits(b: u64) -> bool {
    (b >> 52) & 0x7ff == 0x7ff && b & 0x000f_ffff_ffff_ffff != 0
}

/// An ordered sequence of converted values, one per YAML document in the
/// source, in source order.
#[derive(Debug, PartialEq, Eq)]
pub struct DocumentSet {
    pub docs: Vec<DynamicValue>,
}

impl View for DocumentSet {
    type V = Seq<ValueSpec>;

    open spec fn view(&self) -> Seq<ValueSpec> {
        self.docs.deep_view()
    }
}

impl DocumentSet {
    /// How many documents the set holds.
    pub fn len(&self) -> (r: usize)
        ensures
            r == self@.len(),
    {
        self.docs.len()
    }
}

} // verus!
