use vstd::prelude::*;
use crate::error::PipelineError;
use crate::error::PipelineErrorView;
use crate::value::DecodedValue;
use crate::value::DecodedView;

verus! {

#[verifier::external_type_specification]
#[verifier::external_body]
pub struct ExValue(cbor4ii::core::Value);

/// The decoder's own tree type.
type WireValue = cbor4ii::core::Value;

/// What `cbor4ii` makes of a byte string: the tree of its first data item, or
/// the decoder's complaint.
pub uninterp spec fn cbor_decoding(bytes: Seq<u8>) -> Result<DecodedView, Seq<char>>;

/// The model of a decoding outcome.
pub open spec fn decoding_view(r: Result<DecodedValue, String>) -> Result<DecodedView, Seq<char>> {
    match r {
        Ok(v) => Ok(v@),
        Err(e) => Err(e@),
    }
}

/// Moves a `cbor4ii::core::Value` into a `DecodedValue`, variant by variant;
/// a float is kept as its bits. Nothing is claimed of the result here.
#[verifier::external_body]
fn lift(v: WireValue) -> DecodedValue {
    match v {
        WireValue::Null => DecodedValue::Null,
        WireValue::Bool(b) => DecodedValue::Bool(b),
        WireValue::Integer(i) => DecodedValue::Integer(i),
        WireValue::Float(x) => DecodedValue::Float(x.to_bits()),
        WireValue::Bytes(b) => DecodedValue::Bytes(b),
        WireValue::Text(s) => DecodedValue::Text(s),
        WireValue::Array(a) => DecodedValue::Array(a.into_iter().map(lift).collect()),
        WireValue::Map(m) => DecodedValue::Mapping(
            m.into_iter().map(|(k, v)| (lift(k), lift(v))).collect(),
        ),
        WireValue::Tag(t, b) => DecodedValue::Tag(t, Box::new(lift(*b))),
        _ => DecodedValue::Other,
    }
}

/// Decodes the first data item of `bytes` with `cbor4ii`: `Value::decode` on a
/// `SliceReader`, which reads to a nesting depth of 256. The result is what
/// the decoder gives for these bytes, as a tree of this library, or else the
/// decoder's error in its debug form. Bytes behind the first item are not
/// looked at.
#[verifier::external_body]
pub(crate) fn run_decoder(bytes: &[u8]) -> (r: Result<DecodedValue, String>)
    ensures
        decoding_view(r) == cbor_decoding(bytes@),
{
    let mut reader = cbor4ii::core::utils::SliceReader::new(bytes);
    match <WireValue as cbor4ii::core::dec::Decode>::decode(&mut reader) {
        Ok(v) => Ok(lift(v)),
        Err(e) => Err(format!("{:?}", e)),
    }
}

/// What decoding comes to for the pipeline: the tree, or the decoder's
/// complaint as a failure of its own kind.
pub open spec fn decoded_tree(decoding: Result<DecodedView, Seq<char>>) -> Result<
    DecodedView,
    PipelineErrorView,
> {
    match decoding {
        Ok(root) => Ok(root),
        Err(complaint) => Err(PipelineErrorView::DecodeError(complaint)),
    }
}

/// The model of a decoded tree or a failure.
pub open spec fn tree_view(r: Result<DecodedValue, PipelineError>) -> Result<
    DecodedView,
    PipelineErrorView,
> {
    match r {
        Ok(v) => Ok(v@),
        Err(e) => Err(e@),
    }
}

/// Decodes one CBOR-encoded message into a value tree.
pub fn decode(bytes: &[u8]) -> (r: Result<DecodedValue, PipelineError>)
    ensures
        tree_view(r) == decoded_tree(cbor_decoding(bytes@)),
{
    match run_decoder(bytes) {
        Ok(root) => Ok(root),
        Err(complaint) => Err(PipelineError::DecodeError(complaint)),
    }
}

} // verus!
