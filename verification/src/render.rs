use vstd::prelude::*;
use vstd::string::StringExecFns;
use crate::text::append_decimal;
use crate::text::append_digits;
use crate::text::decimal;
use crate::text::digits;
use crate::text::joined;
use crate::text::lemma_joined_take;
use crate::value::entry_models;
use crate::value::item_models;
use crate::value::DecodedValue;
use crate::value::DecodedView;

verus! {

/// The renderings of the items of an array, in order.
pub open spec fn item_renderings(items: Seq<DecodedView>) -> Seq<Seq<char>>
    decreases items,
{
    Seq::new(
        items.len(),
        |i: int|
            if 0 <= i < items.len() {
                rendering(items[i])
            } else {
                Seq::empty()
            },
    )
}

/// The rendering of one map entry: `(key, value)`.
pub open spec fn entry_rendering(entry: (DecodedView, DecodedView)) -> Seq<char>
    decreases entry,
{
    "("@ + rendering(entry.0) + ", "@ + rendering(entry.1) + ")"@
}

/// The renderings of the entries of a map, in order.
pub open spec fn entry_renderings(entries: Seq<(DecodedView, DecodedView)>) -> Seq<Seq<char>>
    decreases entries,
{
    Seq::new(
        entries.len(),
        |i: int|
            if 0 <= i < entries.len() {
                entry_rendering(entries[i])
            } else {
                Seq::empty()
            },
    )
}

/// The decimal texts of the bytes of a byte string, in order.
pub open spec fn byte_renderings(bytes: Seq<u8>) -> Seq<Seq<char>> {
    Seq::new(bytes.len(), |i: int| digits(bytes[i] as nat))
}

/// The diagnostic text of a decoded value: the name of its variant and, in
/// brackets, what it holds. Integers are decimal, a float shows its bit
/// pattern as a decimal number, text stands between double quotes as it is,
/// and the members of a collection are separated by a comma and a space.
pub open spec fn rendering(d: DecodedView) -> Seq<char>
    decreases d,
{
    match d {
        DecodedView::Null => "Null"@,
        DecodedView::Bool(b) => if b {
            "Bool(true)"@
        } else {
            "Bool(false)"@
        },
        DecodedView::Integer(i) => "Integer("@ + decimal(i as int) + ")"@,
        DecodedView::Float(bits) => "Float("@ + digits(bits as nat) + ")"@,
        DecodedView::Bytes(b) => "Bytes(["@ + joined(byte_renderings(b), ", "@) + "])"@,
        DecodedView::Text(s) => "Text(\""@ + s + "\")"@,
        DecodedView::Array(items) => "Array(["@ + joined(item_renderings(items), ", "@) + "])"@,
        DecodedView::Mapping(entries) => "Map(["@ + joined(entry_renderings(entries), ", "@)
            + "])"@,
        DecodedView::Tag(tag, inner) => "Tag("@ + digits(tag as nat) + ", "@ + rendering(*inner)
            + ")"@,
        DecodedView::Other => "Other"@,
    }
}

/// The text that stands for a value where text is wanted: text itself, and of
/// anything else its rendering.
pub open spec fn text_of(d: DecodedView) -> Seq<char> {
    match d {
        DecodedView::Text(s) => s,
        _ => rendering(d),
    }
}

fn append_bytes_rendering(out: &mut String, bytes: &Vec<u8>)
    ensures
        final(out)@ == old(out)@ + joined(byte_renderings(bytes@), ", "@),
{
    let ghost start = out@;
    let ghost parts = byte_renderings(bytes@);
    let mut i: usize = 0;
    while i < bytes.len()
        invariant
            i <= bytes.len(),
            parts == byte_renderings(bytes@),
            out@ == start + joined(parts.take(i as int), ", "@),
        decreases bytes.len() - i,
    {
        if i > 0 {
            out.append(", ");
        }
        append_digits(out, bytes[i] as u128);
        proof {
            lemma_joined_take(parts, ", "@, i as int);
            assert(out@ =~= start + joined(parts.take(i + 1), ", "@));
        }
        i = i + 1;
    }
    assert(parts.take(bytes.len() as int) =~= parts);
}

fn append_item_renderings(out: &mut String, items: &Vec<DecodedValue>)
    ensures
        final(out)@ == old(out)@ + joined(item_renderings(item_models(*items)), ", "@),
    decreases *items,
{
    let ghost start = out@;
    let ghost parts = item_renderings(item_models(*items));
    let mut i: usize = 0;
    while i < items.len()
        invariant
            i <= items.len(),
            parts == item_renderings(item_models(*items)),
            out@ == start + joined(parts.take(i as int), ", "@),
        decreases items.len() - i,
    {
        if i > 0 {
            out.append(", ");
        }
        append_rendering(out, &items[i]);
        proof {
            lemma_joined_take(parts, ", "@, i as int);
            assert(out@ =~= start + joined(parts.take(i + 1), ", "@));
        }
        i = i + 1;
    }
    assert(parts.take(items.len() as int) =~= parts);
}

fn append_entry_renderings(out: &mut String, entries: &Vec<(DecodedValue, DecodedValue)>)
    ensures
        final(out)@ == old(out)@ + joined(entry_renderings(entry_models(*entries)), ", "@),
    decreases *entries,
{
    let ghost start = out@;
    let ghost parts = entry_renderings(entry_models(*entries));
    let mut i: usize = 0;
    while i < entries.len()
        invariant
            i <= entries.len(),
            parts == entry_renderings(entry_models(*entries)),
            out@ == start + joined(parts.take(i as int), ", "@),
        decreases entries.len() - i,
    {
        if i > 0 {
            out.append(", ");
        }
        out.append("(");
        append_rendering(out, &entries[i].0);
        out.append(", ");
        append_rendering(out, &entries[i].1);
        out.append(")");
        proof {
            lemma_joined_take(parts, ", "@, i as int);
            assert(out@ =~= start + joined(parts.take(i + 1), ", "@));
        }
        i = i + 1;
    }
    assert(parts.take(entries.len() as int) =~= parts);
}

/// Appends the rendering of `v` to `out`.
pub fn append_rendering(out: &mut String, v: &DecodedValue)
    ensures
        final(out)@ == old(out)@ + rendering(v@),
    decreases *v,
{
    match v {
        DecodedValue::Null => {
            out.append("Null");
        },
        DecodedValue::Bool(b) => {
            if *b {
                out.append("Bool(true)");
            } else {
                out.append("Bool(false)");
            }
        },
        DecodedValue::Integer(i) => {
            out.append("Integer(");
            append_decimal(out, *i);
            out.append(")");
        },
        DecodedValue::Float(bits) => {
            out.append("Float(");
            append_digits(out, *bits as u128);
            out.append(")");
        },
        DecodedValue::Bytes(b) => {
            out.append("Bytes([");
            append_bytes_rendering(out, b);
            out.append("])");
        },
        DecodedValue::Text(s) => {
            out.append("Text(\"");
            out.append(s.as_str());
            out.append("\")");
        },
        DecodedValue::Array(items) => {
            out.append("Array([");
            append_item_renderings(out, items);
            out.append("])");
        },
        DecodedValue::Mapping(entries) => {
            out.append("Map([");
            append_entry_renderings(out, entries);
            out.append("])");
        },
        DecodedValue::Tag(tag, inner) => {
            out.append("Tag(");
            append_digits(out, *tag as u128);
            out.append(", ");
            append_rendering(out, inner);
            out.append(")");
        },
        DecodedValue::Other => {
            out.append("Other");
        },
    }
    assert(final(out)@ =~= old(out)@ + rendering(v@));
}

/// The rendering of `v` as a string of its own.
pub fn render(v: &DecodedValue) -> (s: String)
    ensures
        s@ == rendering(v@),
{
    let mut out = String::new();
    append_rendering(&mut out, v);
    assert(out@ =~= rendering(v@));
    out
}

/// The text that stands for `v`: a copy of it where it is text, its rendering
/// where it is anything else.
pub fn text_from(v: &DecodedValue) -> (s: String)
    ensures
        s@ == text_of(v@),
{
    match v {
        DecodedValue::Text(t) => t.clone(),
        _ => render(v),
    }
}

} // verus!
