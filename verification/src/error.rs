use vstd::prelude::*;
use vstd::string::StringExecFns;
use crate::text::joined;
use crate::text::lemma_joined_take;

verus! {

/// Mathematical model of a pipeline failure.
pub enum PipelineErrorView {
    DecodeError(Seq<char>),
    MalformedEnvelope,
    ServerError { code: Seq<char>, message: Seq<char> },
    MissingResultArray,
    ResultNotArray,
    StatementNotMap,
    StatementError { status: Seq<char>, detail: Seq<char> },
    MissingInnerResult { keys: Seq<Seq<char>> },
    InnerResultNotArray,
    SchemaInferenceError(Seq<char>),
    ArrayConversionError(Seq<char>),
    BatchConstructionError(Seq<char>),
}

/// Why a response yielded no batch. Every failure is final: nothing is
/// retried.
#[derive(Debug, PartialEq)]
pub enum PipelineError {
    /// The bytes are no well-formed CBOR; the decoder's complaint.
    DecodeError(String),
    /// The root of the response is not a map.
    MalformedEnvelope,
    /// The server reported that the call as a whole failed.
    ServerError { code: String, message: String },
    /// The envelope has no `result` key.
    MissingResultArray,
    /// The envelope's `result` is not an array.
    ResultNotArray,
    /// The first statement's response is not a map.
    StatementNotMap,
    /// The first statement failed, though the call went through.
    StatementError { status: String, detail: String },
    /// The first statement's response has no `result` key; the keys it has,
    /// each as text, in order.
    MissingInnerResult { keys: Vec<String> },
    /// The first statement's `result` is not an array.
    InnerResultNotArray,
    /// Schema inference failed; the inferencer's complaint.
    SchemaInferenceError(String),
    /// Building the column arrays failed; the builder's complaint.
    ArrayConversionError(String),
    /// Fields and arrays did not go together into a batch.
    BatchConstructionError(String),
}

/// The texts of a list of strings, in order.
pub open spec fn texts(items: Vec<String>) -> Seq<Seq<char>> {
    Seq::new(items.len() as nat, |i: int| items[i]@)
}

impl View for PipelineError {
    type V = PipelineErrorView;

    open spec fn view(&self) -> PipelineErrorView {
        match *self {
            PipelineError::DecodeError(m) => PipelineErrorView::DecodeError(m@),
            PipelineError::MalformedEnvelope => PipelineErrorView::MalformedEnvelope,
            PipelineError::ServerError { code, message } => PipelineErrorView::ServerError {
                code: code@,
                message: message@,
            },
            PipelineError::MissingResultArray => PipelineErrorView::MissingResultArray,
            PipelineError::ResultNotArray => PipelineErrorView::ResultNotArray,
            PipelineError::StatementNotMap => PipelineErrorView::StatementNotMap,
            PipelineError::StatementError { status, detail } => PipelineErrorView::StatementError {
                status: status@,
                detail: detail@,
            },
            PipelineError::MissingInnerResult { keys } => PipelineErrorView::MissingInnerResult {
                keys: texts(keys),
            },
            PipelineError::InnerResultNotArray => PipelineErrorView::InnerResultNotArray,
            PipelineError::SchemaInferenceError(m) => PipelineErrorView::SchemaInferenceError(m@),
            PipelineError::ArrayConversionError(m) => PipelineErrorView::ArrayConversionError(m@),
            PipelineError::BatchConstructionError(m) => PipelineErrorView::BatchConstructionError(
                m@,
            ),
        }
    }
}

/// The one-line description of a failure, as it is shown to the caller.
pub open spec fn message_text(e: PipelineErrorView) -> Seq<char> {
    match e {
        PipelineErrorView::DecodeError(m) => "CBOR decode error: "@ + m,
        PipelineErrorView::MalformedEnvelope => "CBOR Root is not a Map"@,
        PipelineErrorView::ServerError { code, message } => "SurrealDB Error ("@ + code + "): "@
            + message,
        PipelineErrorView::MissingResultArray => "Root 'result' key not found"@,
        PipelineErrorView::ResultNotArray => "Root 'result' is not an array"@,
        PipelineErrorView::StatementNotMap => "First response is not a Map"@,
        PipelineErrorView::StatementError {
            status,
            detail,
        } => "Database returned error status '"@ + status + "': "@ + detail,
        PipelineErrorView::MissingInnerResult {
            keys,
        } => "Inner 'result' key not found. Available keys: ["@ + joined(keys, ", "@) + "]"@,
        PipelineErrorView::InnerResultNotArray => "Inner 'result' is not an array"@,
        PipelineErrorView::SchemaInferenceError(m) => "Schema inference error: "@ + m,
        PipelineErrorView::ArrayConversionError(m) => "Arrow array conversion error: "@ + m,
        PipelineErrorView::BatchConstructionError(m) => "RecordBatch creation error: "@ + m,
    }
}

fn append_joined(out: &mut String, items: &Vec<String>)
    ensures
        final(out)@ == old(out)@ + joined(texts(*items), ", "@),
{
    let ghost start = out@;
    let ghost parts = texts(*items);
    let mut i: usize = 0;
    while i < items.len()
        invariant
            i <= items.len(),
            parts == texts(*items),
            out@ == start + joined(parts.take(i as int), ", "@),
        decreases items.len() - i,
    {
        if i > 0 {
            out.append(", ");
        }
        out.append(items[i].as_str());
        proof {
            lemma_joined_take(parts, ", "@, i as int);
            assert(out@ =~= start + joined(parts.take(i + 1), ", "@));
        }
        i = i + 1;
    }
    assert(parts.take(items.len() as int) =~= parts);
}

impl PipelineError {
    /// The one-line description of this failure.
    pub fn message(&self) -> (text: String)
        ensures
            text@ == message_text(self@),
    {
        let mut out = String::new();
        match self {
            PipelineError::DecodeError(m) => {
                out.append("CBOR decode error: ");
                out.append(m.as_str());
            },
            PipelineError::MalformedEnvelope => {
                out.append("CBOR Root is not a Map");
            },
            PipelineError::ServerError { code, message } => {
                out.append("SurrealDB Error (");
                out.append(code.as_str());
                out.append("): ");
                out.append(message.as_str());
            },
            PipelineError::MissingResultArray => {
                out.append("Root 'result' key not found");
            },
            PipelineError::ResultNotArray => {
                out.append("Root 'result' is not an array");
            },
            PipelineError::StatementNotMap => {
                out.append("First response is not a Map");
            },
            PipelineError::StatementError { status, detail } => {
                out.append("Database returned error status '");
                out.append(status.as_str());
                out.append("': ");
                out.append(detail.as_str());
            },
            PipelineError::MissingInnerResult { keys } => {
                out.append("Inner 'result' key not found. Available keys: [");
                append_joined(&mut out, keys);
                out.append("]");
            },
            PipelineError::InnerResultNotArray => {
                out.append("Inner 'result' is not an array");
            },
            PipelineError::SchemaInferenceError(m) => {
                out.append("Schema inference error: ");
                out.append(m.as_str());
            },
            PipelineError::ArrayConversionError(m) => {
                out.append("Arrow array conversion error: ");
                out.append(m.as_str());
            },
            PipelineError::BatchConstructionError(m) => {
                out.append("RecordBatch creation error: ");
                out.append(m.as_str());
            },
        }
        assert(out@ =~= message_text(self@));
        out
    }
}

} // verus!
