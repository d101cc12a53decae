use vstd::prelude::*;
use crate::decode::cbor_decoding;
use crate::decode::run_decoder;
use crate::decode::decoding_view;
use crate::error::PipelineError;
use crate::error::PipelineErrorView;
use crate::navigate::locate_rows;
use crate::navigate::located;
use crate::normalize::normalize_each;
use crate::normalize::normalized_items;
use crate::text::append_digits;
use crate::text::digits;
use crate::value::normalized_item_models;
use crate::value::DecodedValue;
use crate::value::DecodedView;
use crate::value::NormalizedValue;
use crate::value::NormalizedView;

verus! {

/// The normalized rows of a decoded response, in order, or the failure it
/// stands for. No rows is a success.
pub open spec fn response_rows(root: DecodedView) -> Result<Seq<NormalizedView>, PipelineErrorView> {
    match located(root) {
        Ok(rows) => Ok(normalized_items(rows)),
        Err(e) => Err(e),
    }
}

/// The normalized rows that a decoding outcome comes to: a decoder's
/// complaint is a failure of its own kind, a tree is walked and normalized.
pub open spec fn decoded_rows(decoding: Result<DecodedView, Seq<char>>) -> Result<
    Seq<NormalizedView>,
    PipelineErrorView,
> {
    match decoding {
        Ok(root) => response_rows(root),
        Err(complaint) => Err(PipelineErrorView::DecodeError(complaint)),
    }
}

/// The model of an outcome in rows.
pub open spec fn outcome_view(r: Result<Vec<NormalizedValue>, PipelineError>) -> Result<
    Seq<NormalizedView>,
    PipelineErrorView,
> {
    match r {
        Ok(rows) => Ok(normalized_item_models(rows)),
        Err(e) => Err(e@),
    }
}

/// Finds the rows of a decoded response and normalizes each. An empty list
/// says that the response is well formed and has no rows.
pub fn rows_from_response(root: &DecodedValue) -> (r: Result<Vec<NormalizedValue>, PipelineError>)
    ensures
        outcome_view(r) == response_rows(root@),
{
    match locate_rows(root) {
        Ok(Some(rows)) => Ok(normalize_each(rows)),
        Ok(None) => {
            let none: Vec<NormalizedValue> = Vec::new();
            assert(normalized_item_models(none) =~= normalized_items(Seq::empty()));
            Ok(none)
        },
        Err(e) => Err(e),
    }
}

/// Goes on from what the decoder made of the bytes.
pub fn rows_from_decoding(decoding: Result<DecodedValue, String>) -> (r: Result<
    Vec<NormalizedValue>,
    PipelineError,
>)
    ensures
        outcome_view(r) == decoded_rows(decoding_view(decoding)),
{
    match decoding {
        Ok(root) => rows_from_response(&root),
        Err(complaint) => Err(PipelineError::DecodeError(complaint)),
    }
}

/// Turns one CBOR-encoded response into its normalized rows: decodes the
/// bytes, walks the tree to the rows of the first statement, and normalizes
/// each row.
pub fn cbor_to_rows(data: &[u8]) -> (r: Result<Vec<NormalizedValue>, PipelineError>)
    ensures
        outcome_view(r) == decoded_rows(cbor_decoding(data@)),
{
    rows_from_decoding(run_decoder(data))
}

/// The sum of two numbers in decimal. The sum is taken exactly: it cannot
/// overflow.
pub fn sum_as_string(a: usize, b: usize) -> (s: String)
    ensures
        s@ == digits((a + b) as nat),
{
    let mut out = String::new();
    append_digits(&mut out, a as u128 + b as u128);
    assert(out@ =~= digits((a + b) as nat));
    out
}

} // verus!
