use vstd::prelude::*;
use vstd::string::StringExecFns;
use crate::render::text_from;
use crate::render::text_of;
use crate::text::append_decimal;
use crate::text::decimal;
use crate::value::entry_models;
use crate::value::item_models;
use crate::value::normalized_field_models;
use crate::value::normalized_item_models;
use crate::value::DecodedValue;
use crate::value::DecodedView;
use crate::value::NormalizedValue;
use crate::value::NormalizedView;

verus! {

/// The tag number that marks a record identifier.
pub const RECORD_ID_TAG: u64 = 8;

/// An integer in the narrowest width that holds it: signed 64-bit where it
/// fits, else unsigned 64-bit where that fits, else the full 128 bits.
pub open spec fn narrowest(i: i128) -> NormalizedView {
    if i64::MIN <= i <= i64::MAX {
        NormalizedView::Int64(i as i64)
    } else if 0 <= i <= u64::MAX {
        NormalizedView::UInt64(i as u64)
    } else {
        NormalizedView::Int128(i)
    }
}

/// The table part of a record identifier: the text itself, and the empty text
/// for anything that is not text.
pub open spec fn table_text(d: DecodedView) -> Seq<char> {
    match d {
        DecodedView::Text(s) => s,
        _ => Seq::empty(),
    }
}

/// The id part of a record identifier: text as it is, an integer in decimal,
/// and the empty text for anything else.
pub open spec fn id_text(d: DecodedView) -> Seq<char> {
    match d {
        DecodedView::Text(s) => s,
        DecodedView::Integer(i) => decimal(i as int),
        _ => Seq::empty(),
    }
}

/// The text `table:id` of a record identifier, where `inner` has the shape of
/// one: an array of exactly two items.
pub open spec fn record_id_text(inner: DecodedView) -> Option<Seq<char>> {
    match inner {
        DecodedView::Array(items) => if items.len() == 2 {
            Some(table_text(items[0]) + ":"@ + id_text(items[1]))
        } else {
            None
        },
        _ => None,
    }
}

/// The normalized forms of the items of an array, in order.
pub open spec fn normalized_items(items: Seq<DecodedView>) -> Seq<NormalizedView>
    decreases items,
{
    Seq::new(
        items.len(),
        |i: int|
            if 0 <= i < items.len() {
                normalized(items[i])
            } else {
                NormalizedView::Null
            },
    )
}

/// The normalized forms of the entries of a map, in order: each key as text,
/// each value normalized. Nothing is dropped or merged.
pub open spec fn normalized_fields(entries: Seq<(DecodedView, DecodedView)>) -> Seq<
    (Seq<char>, NormalizedView),
>
    decreases entries,
{
    Seq::new(
        entries.len(),
        |i: int|
            if 0 <= i < entries.len() {
                (text_of(entries[i].0), normalized(entries[i].1))
            } else {
                (Seq::<char>::empty(), NormalizedView::Null)
            },
    )
}

/// The normalized form of a decoded value.
pub open spec fn normalized(d: DecodedView) -> NormalizedView
    decreases d,
{
    match d {
        DecodedView::Null => NormalizedView::Null,
        DecodedView::Bool(b) => NormalizedView::Bool(b),
        DecodedView::Integer(i) => narrowest(i),
        DecodedView::Float(bits) => NormalizedView::Float(bits),
        DecodedView::Bytes(b) => NormalizedView::Bytes(b),
        DecodedView::Text(s) => NormalizedView::Text(s),
        DecodedView::Array(items) => NormalizedView::Sequence(normalized_items(items)),
        DecodedView::Mapping(entries) => NormalizedView::Mapping(normalized_fields(entries)),
        DecodedView::Tag(tag, inner) => if tag == RECORD_ID_TAG && record_id_text(*inner) is Some {
            NormalizedView::Text(record_id_text(*inner).unwrap())
        } else {
            normalized(*inner)
        },
        DecodedView::Other => NormalizedView::Null,
    }
}

/// Picks the width of an integer.
pub fn narrow(i: i128) -> (n: NormalizedValue)
    ensures
        n@ == narrowest(i),
{
    if -0x8000_0000_0000_0000i128 <= i && i <= 0x7fff_ffff_ffff_ffffi128 {
        NormalizedValue::Int64(i as i64)
    } else if 0i128 <= i && i <= 0xffff_ffff_ffff_ffffi128 {
        NormalizedValue::UInt64(i as u64)
    } else {
        NormalizedValue::Int128(i)
    }
}

fn copy_bytes(bytes: &Vec<u8>) -> (out: Vec<u8>)
    ensures
        out@ == bytes@,
{
    let mut out: Vec<u8> = Vec::new();
    let mut i: usize = 0;
    while i < bytes.len()
        invariant
            i <= bytes.len(),
            out@ == bytes@.take(i as int),
        decreases bytes.len() - i,
    {
        out.push(bytes[i]);
        assert(out@ =~= bytes@.take(i + 1));
        i = i + 1;
    }
    assert(bytes@.take(bytes.len() as int) =~= bytes@);
    out
}

/// Formats what a record-identifier tag wraps, where it has the shape of an
/// identifier.
pub fn record_id(inner: &DecodedValue) -> (text: Option<String>)
    ensures
        match text {
            Some(s) => record_id_text(inner@) == Some(s@),
            None => record_id_text(inner@) is None,
        },
{
    match inner {
        DecodedValue::Array(items) => {
            if items.len() == 2 {
                let mut out = String::new();
                match &items[0] {
                    DecodedValue::Text(table) => {
                        out.append(table.as_str());
                    },
                    _ => {},
                }
                out.append(":");
                match &items[1] {
                    DecodedValue::Text(id) => {
                        out.append(id.as_str());
                    },
                    DecodedValue::Integer(id) => {
                        append_decimal(&mut out, *id);
                    },
                    _ => {},
                }
                proof {
                    let models = item_models(*items);
                    assert(inner@ == DecodedView::Array(models));
                    assert(models.len() == 2);
                    assert(models[0] == items[0]@);
                    assert(models[1] == items[1]@);
                    assert(out@ =~= table_text(models[0]) + ":"@ + id_text(models[1]));
                }
                Some(out)
            } else {
                assert(inner@ == DecodedView::Array(item_models(*items)));
                None
            }
        },
        _ => None,
    }
}

/// Normalizes each value of a list, in order.
pub fn normalize_each(items: &Vec<DecodedValue>) -> (out: Vec<NormalizedValue>)
    ensures
        normalized_item_models(out) == normalized_items(item_models(*items)),
    decreases *items,
{
    let mut out: Vec<NormalizedValue> = Vec::new();
    let mut i: usize = 0;
    while i < items.len()
        invariant
            i <= items.len(),
            out.len() == i,
            forall|j: int| 0 <= j < i ==> (#[trigger] out[j]).model() == normalized(items[j].model()),
        decreases items.len() - i,
    {
        let n = normalize(&items[i]);
        out.push(n);
        i = i + 1;
    }
    assert(normalized_item_models(out) =~= normalized_items(item_models(*items)));
    out
}

fn normalize_entries(entries: &Vec<(DecodedValue, DecodedValue)>) -> (out: Vec<
    (String, NormalizedValue),
>)
    ensures
        normalized_field_models(out) == normalized_fields(entry_models(*entries)),
    decreases *entries,
{
    let mut out: Vec<(String, NormalizedValue)> = Vec::new();
    let mut i: usize = 0;
    while i < entries.len()
        invariant
            i <= entries.len(),
            out.len() == i,
            forall|j: int|
                0 <= j < i ==> (#[trigger] out[j]).0@ == text_of(entries[j].0.model()) && out[j].1.model()
                    == normalized(entries[j].1.model()),
        decreases entries.len() - i,
    {
        let key = text_from(&entries[i].0);
        let value = normalize(&entries[i].1);
        out.push((key, value));
        i = i + 1;
    }
    assert(normalized_field_models(out) =~= normalized_fields(entry_models(*entries)));
    out
}

/// Rewrites a decoded value into its normalized form, as a tree of its own
/// that shares nothing with `v`. It succeeds on every value.
pub fn normalize(v: &DecodedValue) -> (n: NormalizedValue)
    ensures
        n@ == normalized(v@),
    decreases *v,
{
    match v {
        DecodedValue::Null => NormalizedValue::Null,
        DecodedValue::Bool(b) => NormalizedValue::Bool(*b),
        DecodedValue::Integer(i) => narrow(*i),
        DecodedValue::Float(bits) => NormalizedValue::Float(*bits),
        DecodedValue::Bytes(b) => NormalizedValue::Bytes(copy_bytes(b)),
        DecodedValue::Text(s) => NormalizedValue::Text(s.clone()),
        DecodedValue::Array(items) => NormalizedValue::Sequence(normalize_each(items)),
        DecodedValue::Mapping(entries) => NormalizedValue::Mapping(normalize_entries(entries)),
        DecodedValue::Tag(tag, inner) => {
            if *tag == RECORD_ID_TAG {
                match record_id(inner) {
                    Some(text) => NormalizedValue::Text(text),
                    None => normalize(inner),
                }
            } else {
                normalize(inner)
            }
        },
        DecodedValue::Other => NormalizedValue::Null,
    }
}

/// Which width an integer gets: signed 64-bit throughout its range, unsigned
/// 64-bit above that range only, and 128-bit outside both.
pub proof fn lemma_narrowest_width(i: i128)
    ensures
        i64::MIN <= i <= i64::MAX ==> narrowest(i) == NormalizedView::Int64(i as i64),
        i64::MAX < i <= u64::MAX ==> narrowest(i) == NormalizedView::UInt64(i as u64),
        i < i64::MIN || i > u64::MAX ==> narrowest(i) == NormalizedView::Int128(i),
        normalized(DecodedView::Integer(i)) == narrowest(i),
{
}

/// A record identifier of a text table and a text or integer id becomes the
/// one text `table:id`, an integer id in decimal.
pub proof fn lemma_record_id_is_text(table: Seq<char>, id: DecodedView)
    ensures
        normalized(
            DecodedView::Tag(
                RECORD_ID_TAG,
                Box::new(DecodedView::Array(seq![DecodedView::Text(table), id])),
            ),
        ) == NormalizedView::Text(table + ":"@ + id_text(id)),
        id matches DecodedView::Text(s) ==> id_text(id) == s,
        id matches DecodedView::Integer(i) ==> id_text(id) == decimal(i as int),
{
    let items = seq![DecodedView::Text(table), id];
    assert(items.len() == 2);
    assert(items[0] == DecodedView::Text(table));
    assert(items[1] == id);
    assert(record_id_text(DecodedView::Array(items)) == Some(table + ":"@ + id_text(id)));
}

/// A tag is dropped, and what it wraps is normalized on its own, wherever the
/// tag is not the record-identifier tag or wraps no array of two items.
pub proof fn lemma_tag_is_dropped(tag: u64, inner: DecodedView)
    requires
        tag != RECORD_ID_TAG || !(inner matches DecodedView::Array(items) && items.len() == 2),
    ensures
        normalized(DecodedView::Tag(tag, Box::new(inner))) == normalized(inner),
{
}

/// The items of a normalized sequence, each read as a decoded value.
pub open spec fn embedded_items(items: Seq<NormalizedView>) -> Seq<DecodedView>
    decreases items,
{
    Seq::new(
        items.len(),
        |i: int|
            if 0 <= i < items.len() {
                embedded(items[i])
            } else {
                DecodedView::Null
            },
    )
}

/// The fields of a normalized mapping, each read as a decoded map entry with
/// a text key.
pub open spec fn embedded_fields(fields: Seq<(Seq<char>, NormalizedView)>) -> Seq<
    (DecodedView, DecodedView),
>
    decreases fields,
{
    Seq::new(
        fields.len(),
        |i: int|
            if 0 <= i < fields.len() {
                (DecodedView::Text(fields[i].0), embedded(fields[i].1))
            } else {
                (DecodedView::Null, DecodedView::Null)
            },
    )
}

/// A normalized value read as a decoded one: each integer as an integer of
/// the same value, each field name as a text key.
pub open spec fn embedded(n: NormalizedView) -> DecodedView
    decreases n,
{
    match n {
        NormalizedView::Null => DecodedView::Null,
        NormalizedView::Bool(b) => DecodedView::Bool(b),
        NormalizedView::Int64(i) => DecodedView::Integer(i as i128),
        NormalizedView::UInt64(u) => DecodedView::Integer(u as i128),
        NormalizedView::Int128(i) => DecodedView::Integer(i),
        NormalizedView::Float(bits) => DecodedView::Float(bits),
        NormalizedView::Bytes(b) => DecodedView::Bytes(b),
        NormalizedView::Text(s) => DecodedView::Text(s),
        NormalizedView::Sequence(items) => DecodedView::Array(embedded_items(items)),
        NormalizedView::Mapping(fields) => DecodedView::Mapping(embedded_fields(fields)),
    }
}

/// Whether every integer in `n` has the narrowest width that holds it.
pub open spec fn canonical(n: NormalizedView) -> bool
    decreases n,
{
    match n {
        NormalizedView::UInt64(u) => u > i64::MAX,
        NormalizedView::Int128(i) => i < i64::MIN || i > u64::MAX,
        NormalizedView::Sequence(items) => forall|i: int|
            0 <= i < items.len() ==> canonical(#[trigger] items[i]),
        NormalizedView::Mapping(fields) => forall|i: int|
            0 <= i < fields.len() ==> canonical((#[trigger] fields[i]).1),
        _ => true,
    }
}

/// Normalizing only ever yields integers in their narrowest width.
pub proof fn lemma_normalized_is_canonical(d: DecodedView)
    ensures
        canonical(normalized(d)),
    decreases d,
{
    match d {
        DecodedView::Array(items) => {
            let members = normalized_items(items);
            assert forall|i: int| 0 <= i < members.len() implies canonical(
                #[trigger] members[i],
            ) by {
                lemma_normalized_is_canonical(items[i]);
            }
            assert(normalized(d) == NormalizedView::Sequence(members));
            assert(canonical(NormalizedView::Sequence(members)));
        },
        DecodedView::Mapping(entries) => {
            let fields = normalized_fields(entries);
            assert forall|i: int| 0 <= i < fields.len() implies canonical(
                (#[trigger] fields[i]).1,
            ) by {
                lemma_normalized_is_canonical(entries[i].1);
            }
            assert(normalized(d) == NormalizedView::Mapping(fields));
            assert(canonical(NormalizedView::Mapping(fields)));
        },
        DecodedView::Tag(tag, inner) => {
            lemma_normalized_is_canonical(*inner);
        },
        _ => {},
    }
}

/// A value that is already in normalized form, read as a decoded value and
/// normalized, comes back unchanged.
pub proof fn lemma_canonical_is_fixed_point(n: NormalizedView)
    requires
        canonical(n),
    ensures
        normalized(embedded(n)) == n,
    decreases n,
{
    match n {
        NormalizedView::Sequence(items) => {
            let again = normalized_items(embedded_items(items));
            assert forall|i: int| 0 <= i < items.len() implies again[i] == items[i] by {
                lemma_canonical_is_fixed_point(items[i]);
            }
            assert(again =~= items);
        },
        NormalizedView::Mapping(fields) => {
            let again = normalized_fields(embedded_fields(fields));
            assert forall|i: int| 0 <= i < fields.len() implies again[i] == fields[i] by {
                lemma_canonical_is_fixed_point(fields[i].1);
            }
            assert(again =~= fields);
        },
        _ => {},
    }
}

/// Normalizing is idempotent: what it yields, read as a decoded value and
/// normalized once more, is the same value.
pub proof fn lemma_normalize_idempotent(d: DecodedView)
    ensures
        normalized(embedded(normalized(d))) == normalized(d),
{
    lemma_normalized_is_canonical(d);
    lemma_canonical_is_fixed_point(normalized(d));
}

} // verus!
