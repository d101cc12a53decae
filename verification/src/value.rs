use vstd::prelude::*;

verus! {

/// Mathematical model of a decoded value tree.
///
/// A float is held as its IEEE 754 binary64 bit pattern; text is a sequence of
/// characters; arrays and maps are sequences, maps of key-value pairs in the
/// order in which the decoder met them.
pub enum DecodedView {
    Null,
    Bool(bool),
    Integer(i128),
    Float(u64),
    Bytes(Seq<u8>),
    Text(Seq<char>),
    Array(Seq<DecodedView>),
    Mapping(Seq<(DecodedView, DecodedView)>),
    Tag(u64, Box<DecodedView>),
    /// Any primitive or extension the pipeline gives no meaning to.
    Other,
}

/// A value tree as the byte decoder produces it.
#[derive(Debug, PartialEq)]
pub enum DecodedValue {
    Null,
    Bool(bool),
    Integer(i128),
    /// The IEEE 754 binary64 bit pattern of the number.
    Float(u64),
    Bytes(Vec<u8>),
    Text(String),
    Array(Vec<DecodedValue>),
    /// Key-value pairs in wire order; keys need not be text and may repeat.
    Mapping(Vec<(DecodedValue, DecodedValue)>),
    Tag(u64, Box<DecodedValue>),
    /// Any primitive or extension the pipeline gives no meaning to.
    Other,
}

/// The models of the items of an array, in order.
pub open spec fn item_models(items: Vec<DecodedValue>) -> Seq<DecodedView>
    decreases items,
{
    Seq::new(
        items.len() as nat,
        |i: int|
            if 0 <= i < items.len() {
                items[i].model()
            } else {
                DecodedView::Null
            },
    )
}

/// The models of the entries of a map, in order.
pub open spec fn entry_models(entries: Vec<(DecodedValue, DecodedValue)>) -> Seq<
    (DecodedView, DecodedView),
>
    decreases entries,
{
    Seq::new(
        entries.len() as nat,
        |i: int|
            if 0 <= i < entries.len() {
                (entries[i].0.model(), entries[i].1.model())
            } else {
                (DecodedView::Null, DecodedView::Null)
            },
    )
}

impl DecodedValue {
    /// The tree this value stands for.
    pub open spec fn model(self) -> DecodedView
        decreases self,
    {
        match self {
            DecodedValue::Null => DecodedView::Null,
            DecodedValue::Bool(b) => DecodedView::Bool(b),
            DecodedValue::Integer(i) => DecodedView::Integer(i),
            DecodedValue::Float(bits) => DecodedView::Float(bits),
            DecodedValue::Bytes(b) => DecodedView::Bytes(b@),
            DecodedValue::Text(s) => DecodedView::Text(s@),
            DecodedValue::Array(items) => DecodedView::Array(item_models(items)),
            DecodedValue::Mapping(entries) => DecodedView::Mapping(entry_models(entries)),
            DecodedValue::Tag(tag, inner) => DecodedView::Tag(tag, Box::new((*inner).model())),
            DecodedValue::Other => DecodedView::Other,
        }
    }
}

impl View for DecodedValue {
    type V = DecodedView;

    open spec fn view(&self) -> DecodedView {
        self.model()
    }
}

/// Mathematical model of a normalized value.
pub enum NormalizedView {
    Null,
    Bool(bool),
    Int64(i64),
    UInt64(u64),
    Int128(i128),
    Float(u64),
    Bytes(Seq<u8>),
    Text(Seq<char>),
    Sequence(Seq<NormalizedView>),
    Mapping(Seq<(Seq<char>, NormalizedView)>),
}

/// A value in the form the schema inferencer consumes: no tags, text keys
/// only, and every integer in the narrowest of its three widths.
#[derive(Debug, PartialEq)]
pub enum NormalizedValue {
    Null,
    Bool(bool),
    Int64(i64),
    UInt64(u64),
    Int128(i128),
    /// The IEEE 754 binary64 bit pattern of the number.
    Float(u64),
    Bytes(Vec<u8>),
    Text(String),
    Sequence(Vec<NormalizedValue>),
    /// Fields in insertion order; a repeated key stays repeated.
    Mapping(Vec<(String, NormalizedValue)>),
}

/// The models of the items of a normalized sequence, in order.
pub open spec fn normalized_item_models(items: Vec<NormalizedValue>) -> Seq<NormalizedView>
    decreases items,
{
    Seq::new(
        items.len() as nat,
        |i: int|
            if 0 <= i < items.len() {
                items[i].model()
            } else {
                NormalizedView::Null
            },
    )
}

/// The models of the fields of a normalized mapping, in order.
pub open spec fn normalized_field_models(fields: Vec<(String, NormalizedValue)>) -> Seq<
    (Seq<char>, NormalizedView),
>
    decreases fields,
{
    Seq::new(
        fields.len() as nat,
        |i: int|
            if 0 <= i < fields.len() {
                (fields[i].0@, fields[i].1.model())
            } else {
                (Seq::<char>::empty(), NormalizedView::Null)
            },
    )
}

impl NormalizedValue {
    /// The value this tree stands for.
    pub open spec fn model(self) -> NormalizedView
        decreases self,
    {
        match self {
            NormalizedValue::Null => NormalizedView::Null,
            NormalizedValue::Bool(b) => NormalizedView::Bool(b),
            NormalizedValue::Int64(i) => NormalizedView::Int64(i),
            NormalizedValue::UInt64(u) => NormalizedView::UInt64(u),
            NormalizedValue::Int128(i) => NormalizedView::Int128(i),
            NormalizedValue::Float(bits) => NormalizedView::Float(bits),
            NormalizedValue::Bytes(b) => NormalizedView::Bytes(b@),
            NormalizedValue::Text(s) => NormalizedView::Text(s@),
            NormalizedValue::Sequence(items) => NormalizedView::Sequence(
                normalized_item_models(items),
            ),
            NormalizedValue::Mapping(fields) => NormalizedView::Mapping(
                normalized_field_models(fields),
            ),
        }
    }
}

impl View for NormalizedValue {
    type V = NormalizedView;

    open spec fn view(&self) -> NormalizedView {
        self.model()
    }
}

} // verus!
