use vstd::prelude::*;
use vstd::string::StringExecFns;
use crate::error::texts;
use crate::error::PipelineError;
use crate::error::PipelineErrorView;
use crate::render::render;
use crate::render::rendering;
use crate::render::text_from;
use crate::render::text_of;
use crate::text::text_is;
use crate::value::entry_models;
use crate::value::item_models;
use crate::value::DecodedValue;
use crate::value::DecodedView;

verus! {

/// Whether the key of `entry` is the text `a` or the text `b`.
pub open spec fn keyed(entry: (DecodedView, DecodedView), a: Seq<char>, b: Seq<char>) -> bool {
    entry.0 == DecodedView::Text(a) || entry.0 == DecodedView::Text(b)
}

/// The value of the first entry whose key is the text `a` or the text `b`.
/// Keys are compared exactly; entries with other keys are passed over.
pub open spec fn lookup_either(
    entries: Seq<(DecodedView, DecodedView)>,
    a: Seq<char>,
    b: Seq<char>,
) -> Option<DecodedView>
    decreases entries.len(),
{
    if entries.len() == 0 {
        None
    } else if keyed(entries[0], a, b) {
        Some(entries[0].1)
    } else {
        lookup_either(entries.subrange(1, entries.len() as int), a, b)
    }
}

/// The value of the first entry whose key is the text `key`.
pub open spec fn lookup(entries: Seq<(DecodedView, DecodedView)>, key: Seq<char>) -> Option<
    DecodedView,
> {
    lookup_either(entries, key, key)
}

/// The keys of a map, each as text, in order.
pub open spec fn key_texts(entries: Seq<(DecodedView, DecodedView)>) -> Seq<Seq<char>> {
    Seq::new(entries.len(), |i: int| text_of(entries[i].0))
}

/// The failure that a top-level `error` value stands for. The message is the
/// value under `message`, or else the rendering of the whole error value; the
/// code is the value under `code`, or else a question mark.
pub open spec fn server_error(error: DecodedView) -> PipelineErrorView {
    match error {
        DecodedView::Mapping(fields) => PipelineErrorView::ServerError {
            code: match lookup(fields, "code"@) {
                Some(code) => text_of(code),
                None => "?"@,
            },
            message: match lookup(fields, "message"@) {
                Some(message) => text_of(message),
                None => rendering(error),
            },
        },
        _ => PipelineErrorView::ServerError { code: "?"@, message: rendering(error) },
    }
}

/// The failure that a statement with a status other than `OK` stands for.
/// The detail is the value of the first entry keyed `detail` or `message`.
pub open spec fn statement_error(
    statement: Seq<(DecodedView, DecodedView)>,
    status: DecodedView,
) -> PipelineErrorView {
    PipelineErrorView::StatementError {
        status: text_of(status),
        detail: match lookup_either(statement, "detail"@, "message"@) {
            Some(detail) => text_of(detail),
            None => "Unknown error"@,
        },
    }
}

/// The rows of one statement's response, or why it has none to give.
pub open spec fn statement_rows(statement: Seq<(DecodedView, DecodedView)>) -> Result<
    Seq<DecodedView>,
    PipelineErrorView,
> {
    let status = lookup(statement, "status"@);
    if status is Some && status != Some(DecodedView::Text("OK"@)) {
        Err(statement_error(statement, status.unwrap()))
    } else {
        match lookup(statement, "result"@) {
            Some(DecodedView::Array(rows)) => Ok(rows),
            Some(_) => Err(PipelineErrorView::InnerResultNotArray),
            None => Err(PipelineErrorView::MissingInnerResult { keys: key_texts(statement) }),
        }
    }
}

/// The rows that a response carries, in order, or the failure it stands for.
/// No rows at all is a success: the server ran no statement, or the first
/// statement matched nothing. Only the first statement is looked at.
pub open spec fn located(root: DecodedView) -> Result<Seq<DecodedView>, PipelineErrorView> {
    match root {
        DecodedView::Mapping(envelope) => match lookup(envelope, "error"@) {
            Some(error) => Err(server_error(error)),
            None => match lookup(envelope, "result"@) {
                Some(DecodedView::Array(statements)) => if statements.len() == 0 {
                    Ok(Seq::empty())
                } else {
                    match statements[0] {
                        DecodedView::Mapping(statement) => statement_rows(statement),
                        _ => Err(PipelineErrorView::StatementNotMap),
                    }
                },
                Some(_) => Err(PipelineErrorView::ResultNotArray),
                None => Err(PipelineErrorView::MissingResultArray),
            },
        },
        _ => Err(PipelineErrorView::MalformedEnvelope),
    }
}

/// Whether entry `i` is the first whose key is the text `a` or the text `b`.
pub open spec fn first_keyed(
    entries: Seq<(DecodedView, DecodedView)>,
    a: Seq<char>,
    b: Seq<char>,
    i: int,
) -> bool {
    &&& 0 <= i < entries.len()
    &&& keyed(entries[i], a, b)
    &&& forall|j: int| 0 <= j < i ==> !keyed(#[trigger] entries[j], a, b)
}

/// A lookup yields the value of the first entry with the key, and nothing
/// exactly where no entry has the key.
pub proof fn lemma_lookup_is_first_match(
    entries: Seq<(DecodedView, DecodedView)>,
    a: Seq<char>,
    b: Seq<char>,
)
    ensures
        match lookup_either(entries, a, b) {
            Some(v) => exists|i: int| #[trigger] first_keyed(entries, a, b, i) && entries[i].1 == v,
            None => forall|i: int| 0 <= i < entries.len() ==> !keyed(#[trigger] entries[i], a, b),
        },
    decreases entries.len(),
{
    if entries.len() == 0 {
    } else if keyed(entries[0], a, b) {
        assert(first_keyed(entries, a, b, 0));
    } else {
        let rest = entries.subrange(1, entries.len() as int);
        lemma_lookup_is_first_match(rest, a, b);
        assert(forall|i: int| 0 <= i < rest.len() ==> rest[i] == entries[i + 1]);
        match lookup_either(rest, a, b) {
            Some(v) => {
                let i = choose|i: int| #[trigger] first_keyed(rest, a, b, i) && rest[i].1 == v;
                assert forall|j: int| 0 <= j < i + 1 implies !keyed(
                    #[trigger] entries[j],
                    a,
                    b,
                ) by {
                    if j > 0 {
                        assert(rest[j - 1] == entries[j]);
                    }
                }
                assert(first_keyed(entries, a, b, i + 1));
            },
            None => {
                assert forall|i: int| 0 <= i < entries.len() implies !keyed(
                    #[trigger] entries[i],
                    a,
                    b,
                ) by {
                    if i > 0 {
                        assert(rest[i - 1] == entries[i]);
                    }
                }
            },
        }
    }
}

/// A root that is no map is a malformed envelope, whatever else it is.
pub proof fn lemma_root_must_be_map(root: DecodedView)
    requires
        !(root is Mapping),
    ensures
        located(root) matches Err(e) && e is MalformedEnvelope,
{
}

/// A top-level `error` key decides the outcome, whatever else the envelope
/// holds: a well-formed `result` beside it changes nothing.
pub proof fn lemma_error_key_wins(envelope: Seq<(DecodedView, DecodedView)>)
    requires
        lookup(envelope, "error"@) is Some,
    ensures
        located(DecodedView::Mapping(envelope)) matches Err(e) && e == server_error(
            lookup(envelope, "error"@).unwrap(),
        ),
        located(DecodedView::Mapping(envelope)) matches Err(e) && e is ServerError,
{
}

/// What a search for rows came to, as a model: the rows in order, none where
/// there are none, or the failure.
pub open spec fn rows_view(r: Result<Option<&Vec<DecodedValue>>, PipelineError>) -> Result<
    Seq<DecodedView>,
    PipelineErrorView,
> {
    match r {
        Ok(Some(rows)) => Ok(item_models(*rows)),
        Ok(None) => Ok(Seq::empty()),
        Err(e) => Err(e@),
    }
}

fn has_key(entry: &(DecodedValue, DecodedValue), a: &str, b: &str) -> (yes: bool)
    ensures
        yes == keyed((entry.0@, entry.1@), a@, b@),
{
    match &entry.0 {
        DecodedValue::Text(s) => text_is(s, a) || text_is(s, b),
        _ => false,
    }
}

/// Finds the value of the first entry whose key is the text `a` or the text
/// `b`.
pub fn find_either<'a>(entries: &'a Vec<(DecodedValue, DecodedValue)>, a: &str, b: &str) -> (found:
    Option<&'a DecodedValue>)
    ensures
        match found {
            Some(v) => lookup_either(entry_models(*entries), a@, b@) == Some(v@),
            None => lookup_either(entry_models(*entries), a@, b@) is None,
        },
{
    let ghost all = entry_models(*entries);
    assert(all.subrange(0, all.len() as int) =~= all);
    let mut i: usize = 0;
    while i < entries.len()
        invariant
            i <= entries.len(),
            all == entry_models(*entries),
            lookup_either(all, a@, b@) == lookup_either(
                all.subrange(i as int, all.len() as int),
                a@,
                b@,
            ),
        decreases entries.len() - i,
    {
        let ghost rest = all.subrange(i as int, all.len() as int);
        assert(rest[0] == all[i as int]);
        if has_key(&entries[i], a, b) {
            return Some(&entries[i].1);
        }
        assert(rest.subrange(1, rest.len() as int) =~= all.subrange(i + 1, all.len() as int));
        i = i + 1;
    }
    None
}

/// Finds the value of the first entry whose key is the text `key`.
pub fn find<'a>(entries: &'a Vec<(DecodedValue, DecodedValue)>, key: &str) -> (found: Option<
    &'a DecodedValue,
>)
    ensures
        match found {
            Some(v) => lookup(entry_models(*entries), key@) == Some(v@),
            None => lookup(entry_models(*entries), key@) is None,
        },
{
    find_either(entries, key, key)
}

fn server_failure(error: &DecodedValue) -> (e: PipelineError)
    ensures
        e@ == server_error(error@),
{
    match error {
        DecodedValue::Mapping(fields) => {
            let code = match find(fields, "code") {
                Some(code) => text_from(code),
                None => String::from_str("?"),
            };
            let message = match find(fields, "message") {
                Some(message) => text_from(message),
                None => render(error),
            };
            PipelineError::ServerError { code, message }
        },
        _ => PipelineError::ServerError { code: String::from_str("?"), message: render(error) },
    }
}

fn statement_failure(statement: &Vec<(DecodedValue, DecodedValue)>, status: &DecodedValue) -> (e:
    PipelineError)
    ensures
        e@ == statement_error(entry_models(*statement), status@),
{
    let detail = match find_either(statement, "detail", "message") {
        Some(detail) => text_from(detail),
        None => String::from_str("Unknown error"),
    };
    PipelineError::StatementError { status: text_from(status), detail }
}

fn is_ok_status(status: &DecodedValue) -> (ok: bool)
    ensures
        ok == (status@ == DecodedView::Text("OK"@)),
{
    match status {
        DecodedValue::Text(s) => text_is(s, "OK"),
        _ => false,
    }
}

fn key_names(entries: &Vec<(DecodedValue, DecodedValue)>) -> (keys: Vec<String>)
    ensures
        texts(keys) == key_texts(entry_models(*entries)),
{
    let mut keys: Vec<String> = Vec::new();
    let mut i: usize = 0;
    while i < entries.len()
        invariant
            i <= entries.len(),
            keys.len() == i,
            forall|j: int| 0 <= j < i ==> (#[trigger] keys[j])@ == text_of(entries[j].0@),
        decreases entries.len() - i,
    {
        keys.push(text_from(&entries[i].0));
        i = i + 1;
    }
    assert(texts(keys) =~= key_texts(entry_models(*entries)));
    keys
}

/// The rows of one statement's response: `None` where it has none.
pub fn statement_result<'a>(statement: &'a Vec<(DecodedValue, DecodedValue)>) -> (r: Result<
    Option<&'a Vec<DecodedValue>>,
    PipelineError,
>)
    ensures
        rows_view(r) == statement_rows(entry_models(*statement)),
        r matches Ok(Some(rows)) ==> rows.len() > 0,
        r matches Ok(None) <==> (statement_rows(entry_models(*statement)) matches Ok(rows)
            && rows.len() == 0),
{
    match find(statement, "status") {
        Some(status) => {
            if !is_ok_status(status) {
                return Err(statement_failure(statement, status));
            }
        },
        None => {},
    }
    match find(statement, "result") {
        Some(DecodedValue::Array(rows)) => {
            if rows.len() == 0 {
                assert(item_models(*rows) =~= Seq::empty());
                Ok(None)
            } else {
                Ok(Some(rows))
            }
        },
        Some(_) => Err(PipelineError::InnerResultNotArray),
        None => Err(PipelineError::MissingInnerResult { keys: key_names(statement) }),
    }
}

/// Walks a decoded response to the rows of its first statement. The tree is
/// only read; the rows are handed out as they stand in it. `Ok(None)` says
/// that the response is well formed and has no rows; `Ok(Some(rows))` holds at
/// least one row.
pub fn locate_rows<'a>(root: &'a DecodedValue) -> (r: Result<
    Option<&'a Vec<DecodedValue>>,
    PipelineError,
>)
    ensures
        rows_view(r) == located(root@),
        r matches Ok(Some(rows)) ==> rows.len() > 0,
        r matches Ok(None) <==> (located(root@) matches Ok(rows) && rows.len() == 0),
        !(root@ is Mapping) ==> (r matches Err(e) && e@ is MalformedEnvelope),
        root@ matches DecodedView::Mapping(envelope) ==> (lookup(envelope, "error"@) matches Some(
            error,
        ) ==> (r matches Err(e) && e@ == server_error(error))),
{
    let envelope = match root {
        DecodedValue::Mapping(envelope) => envelope,
        _ => {
            return Err(PipelineError::MalformedEnvelope);
        },
    };
    match find(envelope, "error") {
        Some(error) => {
            return Err(server_failure(error));
        },
        None => {},
    }
    let statements = match find(envelope, "result") {
        Some(DecodedValue::Array(statements)) => statements,
        Some(_) => {
            return Err(PipelineError::ResultNotArray);
        },
        None => {
            return Err(PipelineError::MissingResultArray);
        },
    };
    if statements.len() == 0 {
        assert(item_models(*statements).len() == 0);
        return Ok(None);
    }
    assert(item_models(*statements)[0] == statements[0]@);
    match &statements[0] {
        DecodedValue::Mapping(statement) => statement_result(statement),
        _ => Err(PipelineError::StatementNotMap),
    }
}

} // verus!
